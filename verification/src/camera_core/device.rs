use vstd::prelude::*;

use crate::camera_core::capabilities::Capability;

verus! {

/// The capability list derived from which optional ports are registered:
/// each registered capability exactly once, in the fixed order
/// Zoom, Focus, AutoFocus, Info, Stabilization.
pub open spec fn capability_list(
    zoom: bool,
    focus: bool,
    autofocus: bool,
    info: bool,
    stabilization: bool,
) -> Seq<Capability> {
    (if zoom { seq![Capability::Zoom] } else { Seq::empty() })
        + (if focus { seq![Capability::Focus] } else { Seq::empty() })
        + (if autofocus { seq![Capability::AutoFocus] } else { Seq::empty() })
        + (if info { seq![Capability::Info] } else { Seq::empty() })
        + (if stabilization { seq![Capability::Stabilization] } else { Seq::empty() })
}

/// The lifecycle port and optional capability ports for one device instance.
///
/// `L` is the lifecycle port; `Z`, `F`, `I`, `A`, `S` are the zoom, focus,
/// information, autofocus and stabilization ports, each of which may be absent.
#[derive(Clone)]
pub struct DevicePorts<L, Z, F, I, A, S> {
    lifecycle: L,
    zoom: Option<Z>,
    focus: Option<F>,
    info: Option<I>,
    autofocus: Option<A>,
    stabilization: Option<S>,
}

impl<L, Z, F, I, A, S> DevicePorts<L, Z, F, I, A, S> {
    pub closed spec fn lifecycle_port(&self) -> L {
        self.lifecycle
    }

    pub closed spec fn zoom_port(&self) -> Option<Z> {
        self.zoom
    }

    pub closed spec fn focus_port(&self) -> Option<F> {
        self.focus
    }

    pub closed spec fn info_port(&self) -> Option<I> {
        self.info
    }

    pub closed spec fn autofocus_port(&self) -> Option<A> {
        self.autofocus
    }

    pub closed spec fn stabilization_port(&self) -> Option<S> {
        self.stabilization
    }

    /// Whether the port for `capability` is registered.
    pub open spec fn supports(&self, capability: Capability) -> bool {
        match capability {
            Capability::Zoom => self.zoom_port() is Some,
            Capability::Focus => self.focus_port() is Some,
            Capability::AutoFocus => self.autofocus_port() is Some,
            Capability::Info => self.info_port() is Some,
            Capability::Stabilization => self.stabilization_port() is Some,
        }
    }

    /// The capabilities that the registered ports provide.
    pub open spec fn registered_capabilities(&self) -> Seq<Capability> {
        capability_list(
            self.zoom_port() is Some,
            self.focus_port() is Some,
            self.autofocus_port() is Some,
            self.info_port() is Some,
            self.stabilization_port() is Some,
        )
    }

    /// Starts a typed port builder with the required lifecycle port.
    pub fn builder(lifecycle: L) -> (r: DevicePortsBuilder<L, Z, F, I, A, S>)
        ensures
            r == DevicePortsBuilder::<L, Z, F, I, A, S>::started(lifecycle),
            r.lifecycle_port() == lifecycle,
            r.zoom_port() is None,
            r.focus_port() is None,
            r.info_port() is None,
            r.autofocus_port() is None,
            r.stabilization_port() is None,
    {
        DevicePortsBuilder {
            lifecycle,
            zoom: None,
            focus: None,
            info: None,
            autofocus: None,
            stabilization: None,
        }
    }

    /// Returns the required lifecycle port.
    pub fn lifecycle(&self) -> (r: &L)
        ensures
            *r == self.lifecycle_port(),
    {
        &self.lifecycle
    }

    /// Returns the zoom port when supported.
    pub fn zoom(&self) -> (r: Option<&Z>)
        ensures
            match r {
                Some(p) => self.zoom_port() == Some(*p),
                None => self.zoom_port() is None,
            },
    {
        self.zoom.as_ref()
    }

    /// Returns the focus port when supported.
    pub fn focus(&self) -> (r: Option<&F>)
        ensures
            match r {
                Some(p) => self.focus_port() == Some(*p),
                None => self.focus_port() is None,
            },
    {
        self.focus.as_ref()
    }

    /// Returns the information port when supported.
    pub fn info(&self) -> (r: Option<&I>)
        ensures
            match r {
                Some(p) => self.info_port() == Some(*p),
                None => self.info_port() is None,
            },
    {
        self.info.as_ref()
    }

    /// Returns the autofocus port when supported.
    pub fn autofocus(&self) -> (r: Option<&A>)
        ensures
            match r {
                Some(p) => self.autofocus_port() == Some(*p),
                None => self.autofocus_port() is None,
            },
    {
        self.autofocus.as_ref()
    }

    /// Returns the stabilization port when supported.
    pub fn stabilization(&self) -> (r: Option<&S>)
        ensures
            match r {
                Some(p) => self.stabilization_port() == Some(*p),
                None => self.stabilization_port() is None,
            },
    {
        self.stabilization.as_ref()
    }

    /// Derives the supported capability set from registered ports.
    pub fn capabilities(&self) -> (r: Vec<Capability>)
        ensures
            r@ == self.registered_capabilities(),
    {
        let mut capabilities: Vec<Capability> = Vec::with_capacity(5);
        if self.zoom.is_some() {
            capabilities.push(Capability::Zoom);
        }
        if self.focus.is_some() {
            capabilities.push(Capability::Focus);
        }
        if self.autofocus.is_some() {
            capabilities.push(Capability::AutoFocus);
        }
        if self.info.is_some() {
            capabilities.push(Capability::Info);
        }
        if self.stabilization.is_some() {
            capabilities.push(Capability::Stabilization);
        }
        capabilities
    }
}

/// A builder that registers only the capabilities implemented by a device.
pub struct DevicePortsBuilder<L, Z, F, I, A, S> {
    lifecycle: L,
    zoom: Option<Z>,
    focus: Option<F>,
    info: Option<I>,
    autofocus: Option<A>,
    stabilization: Option<S>,
}

impl<L, Z, F, I, A, S> DevicePortsBuilder<L, Z, F, I, A, S> {
    pub closed spec fn lifecycle_port(&self) -> L {
        self.lifecycle
    }

    pub closed spec fn zoom_port(&self) -> Option<Z> {
        self.zoom
    }

    pub closed spec fn focus_port(&self) -> Option<F> {
        self.focus
    }

    pub closed spec fn info_port(&self) -> Option<I> {
        self.info
    }

    pub closed spec fn autofocus_port(&self) -> Option<A> {
        self.autofocus
    }

    pub closed spec fn stabilization_port(&self) -> Option<S> {
        self.stabilization
    }

    /// A builder that holds `lifecycle` and no optional port.
    pub closed spec fn started(lifecycle: L) -> Self {
        DevicePortsBuilder {
            lifecycle,
            zoom: None,
            focus: None,
            info: None,
            autofocus: None,
            stabilization: None,
        }
    }

    /// The builder after one registration: the registered port replaces any
    /// earlier port of its capability, and every other port stays.
    pub closed spec fn register(self, registration: PortRegistration<Z, F, I, A, S>) -> Self {
        match registration {
            PortRegistration::Zoom(zoom) => DevicePortsBuilder { zoom: Some(zoom), ..self },
            PortRegistration::Focus(focus) => DevicePortsBuilder { focus: Some(focus), ..self },
            PortRegistration::Info(info) => DevicePortsBuilder { info: Some(info), ..self },
            PortRegistration::AutoFocus(autofocus) => DevicePortsBuilder {
                autofocus: Some(autofocus),
                ..self
            },
            PortRegistration::Stabilization(stabilization) => DevicePortsBuilder {
                stabilization: Some(stabilization),
                ..self
            },
        }
    }

    /// The builder after a sequence of registrations, made in order.
    pub open spec fn register_all(self, registrations: Seq<PortRegistration<Z, F, I, A, S>>) -> Self
        decreases registrations.len(),
    {
        if registrations.len() == 0 {
            self
        } else {
            self.register_all(registrations.drop_last()).register(registrations.last())
        }
    }

    /// Registers a zoom port.
    pub fn with_zoom(self, zoom: Z) -> (r: Self)
        ensures
            r == self.register(PortRegistration::Zoom(zoom)),
            r.zoom_port() == Some(zoom),
            r.lifecycle_port() == self.lifecycle_port(),
            r.focus_port() == self.focus_port(),
            r.info_port() == self.info_port(),
            r.autofocus_port() == self.autofocus_port(),
            r.stabilization_port() == self.stabilization_port(),
    {
        DevicePortsBuilder { zoom: Some(zoom), ..self }
    }

    /// Registers a focus port.
    pub fn with_focus(self, focus: F) -> (r: Self)
        ensures
            r == self.register(PortRegistration::Focus(focus)),
            r.focus_port() == Some(focus),
            r.lifecycle_port() == self.lifecycle_port(),
            r.zoom_port() == self.zoom_port(),
            r.info_port() == self.info_port(),
            r.autofocus_port() == self.autofocus_port(),
            r.stabilization_port() == self.stabilization_port(),
    {
        DevicePortsBuilder { focus: Some(focus), ..self }
    }

    /// Registers an information port.
    pub fn with_info(self, info: I) -> (r: Self)
        ensures
            r == self.register(PortRegistration::Info(info)),
            r.info_port() == Some(info),
            r.lifecycle_port() == self.lifecycle_port(),
            r.zoom_port() == self.zoom_port(),
            r.focus_port() == self.focus_port(),
            r.autofocus_port() == self.autofocus_port(),
            r.stabilization_port() == self.stabilization_port(),
    {
        DevicePortsBuilder { info: Some(info), ..self }
    }

    /// Registers an autofocus port.
    pub fn with_autofocus(self, autofocus: A) -> (r: Self)
        ensures
            r == self.register(PortRegistration::AutoFocus(autofocus)),
            r.autofocus_port() == Some(autofocus),
            r.lifecycle_port() == self.lifecycle_port(),
            r.zoom_port() == self.zoom_port(),
            r.focus_port() == self.focus_port(),
            r.info_port() == self.info_port(),
            r.stabilization_port() == self.stabilization_port(),
    {
        DevicePortsBuilder { autofocus: Some(autofocus), ..self }
    }

    /// Registers a stabilization port.
    pub fn with_stabilization(self, stabilization: S) -> (r: Self)
        ensures
            r == self.register(PortRegistration::Stabilization(stabilization)),
            r.stabilization_port() == Some(stabilization),
            r.lifecycle_port() == self.lifecycle_port(),
            r.zoom_port() == self.zoom_port(),
            r.focus_port() == self.focus_port(),
            r.info_port() == self.info_port(),
            r.autofocus_port() == self.autofocus_port(),
    {
        DevicePortsBuilder { stabilization: Some(stabilization), ..self }
    }

    /// Finishes the immutable device-port aggregate.
    pub fn build(self) -> (r: DevicePorts<L, Z, F, I, A, S>)
        ensures
            r.lifecycle_port() == self.lifecycle_port(),
            r.zoom_port() == self.zoom_port(),
            r.focus_port() == self.focus_port(),
            r.info_port() == self.info_port(),
            r.autofocus_port() == self.autofocus_port(),
            r.stabilization_port() == self.stabilization_port(),
    {
        DevicePorts {
            lifecycle: self.lifecycle,
            zoom: self.zoom,
            focus: self.focus,
            info: self.info,
            autofocus: self.autofocus,
            stabilization: self.stabilization,
        }
    }
}

/// One `with_*` call on a [`DevicePortsBuilder`], with the port it registers.
pub enum PortRegistration<Z, F, I, A, S> {
    Zoom(Z),
    Focus(F),
    Info(I),
    AutoFocus(A),
    Stabilization(S),
}

/// The zoom port of the last zoom registration in `regs`, if any.
pub open spec fn last_zoom<Z, F, I, A, S>(regs: Seq<PortRegistration<Z, F, I, A, S>>) -> Option<Z>
    decreases regs.len(),
{
    if regs.len() == 0 {
        None
    } else {
        match regs.last() {
            PortRegistration::Zoom(zoom) => Some(zoom),
            _ => last_zoom(regs.drop_last()),
        }
    }
}

/// The focus port of the last focus registration in `regs`, if any.
pub open spec fn last_focus<Z, F, I, A, S>(regs: Seq<PortRegistration<Z, F, I, A, S>>) -> Option<F>
    decreases regs.len(),
{
    if regs.len() == 0 {
        None
    } else {
        match regs.last() {
            PortRegistration::Focus(focus) => Some(focus),
            _ => last_focus(regs.drop_last()),
        }
    }
}

/// The information port of the last information registration in `regs`, if any.
pub open spec fn last_info<Z, F, I, A, S>(regs: Seq<PortRegistration<Z, F, I, A, S>>) -> Option<I>
    decreases regs.len(),
{
    if regs.len() == 0 {
        None
    } else {
        match regs.last() {
            PortRegistration::Info(info) => Some(info),
            _ => last_info(regs.drop_last()),
        }
    }
}

/// The autofocus port of the last autofocus registration in `regs`, if any.
pub open spec fn last_autofocus<Z, F, I, A, S>(regs: Seq<PortRegistration<Z, F, I, A, S>>) -> Option<A>
    decreases regs.len(),
{
    if regs.len() == 0 {
        None
    } else {
        match regs.last() {
            PortRegistration::AutoFocus(autofocus) => Some(autofocus),
            _ => last_autofocus(regs.drop_last()),
        }
    }
}

/// The stabilization port of the last stabilization registration in `regs`, if any.
pub open spec fn last_stabilization<Z, F, I, A, S>(
    regs: Seq<PortRegistration<Z, F, I, A, S>>,
) -> Option<S>
    decreases regs.len(),
{
    if regs.len() == 0 {
        None
    } else {
        match regs.last() {
            PortRegistration::Stabilization(stabilization) => Some(stabilization),
            _ => last_stabilization(regs.drop_last()),
        }
    }
}

/// Law: starting from `DevicePorts::builder(lifecycle)`, any sequence of `with_*`
/// calls yields a builder, and through `build` device ports, that hold `lifecycle`
/// and, for each capability, the port of the last call that registered it, or no
/// port when no call did.
pub proof fn builder_keeps_last_registrations<L, Z, F, I, A, S>(
    lifecycle: L,
    regs: Seq<PortRegistration<Z, F, I, A, S>>,
)
    ensures
        DevicePortsBuilder::<L, Z, F, I, A, S>::started(lifecycle).register_all(regs).lifecycle_port()
            == lifecycle,
        DevicePortsBuilder::<L, Z, F, I, A, S>::started(lifecycle).register_all(regs).zoom_port()
            == last_zoom(regs),
        DevicePortsBuilder::<L, Z, F, I, A, S>::started(lifecycle).register_all(regs).focus_port()
            == last_focus(regs),
        DevicePortsBuilder::<L, Z, F, I, A, S>::started(lifecycle).register_all(regs).info_port()
            == last_info(regs),
        DevicePortsBuilder::<L, Z, F, I, A, S>::started(lifecycle).register_all(regs).autofocus_port()
            == last_autofocus(regs),
        DevicePortsBuilder::<L, Z, F, I, A, S>::started(lifecycle).register_all(
            regs,
        ).stabilization_port() == last_stabilization(regs),
    decreases regs.len(),
{
    if regs.len() > 0 {
        builder_keeps_last_registrations::<L, Z, F, I, A, S>(lifecycle, regs.drop_last());
    }
}

/// The position of a capability in the reported order.
pub open spec fn capability_rank(c: Capability) -> int {
    match c {
        Capability::Zoom => 0,
        Capability::Focus => 1,
        Capability::AutoFocus => 2,
        Capability::Info => 3,
        Capability::Stabilization => 4,
    }
}

/// Whether the capabilities of `s` occur in strictly increasing order.
pub open spec fn in_capability_order(s: Seq<Capability>) -> bool {
    forall|i: int, j: int| 0 <= i < j < s.len() ==> capability_rank(s[i]) < capability_rank(s[j])
}

spec fn optional(present: bool, c: Capability) -> Seq<Capability> {
    if present { seq![c] } else { Seq::empty() }
}

proof fn lemma_append_optional(s: Seq<Capability>, present: bool, c: Capability)
    requires
        in_capability_order(s),
        forall|i: int| 0 <= i < s.len() ==> capability_rank(#[trigger] s[i]) < capability_rank(c),
    ensures
        in_capability_order(s + optional(present, c)),
        forall|x: Capability| #![trigger (s + optional(present, c)).contains(x)]
            (s + optional(present, c)).contains(x) <==> (s.contains(x) || (present && x == c)),
        forall|i: int| 0 <= i < (s + optional(present, c)).len()
            ==> capability_rank(#[trigger] (s + optional(present, c))[i]) <= capability_rank(c),
{
    let t = s + optional(present, c);
    assert forall|x: Capability| t.contains(x) <==> (s.contains(x) || (present && x == c)) by {
        if t.contains(x) {
            let i = choose|i: int| 0 <= i < t.len() && t[i] == x;
            if i >= s.len() {
                assert(present && x == c);
            } else {
                assert(s[i] == x);
            }
        }
        if s.contains(x) {
            let i = choose|i: int| 0 <= i < s.len() && s[i] == x;
            assert(t[i] == x);
        }
        if present && x == c {
            assert(t[s.len() as int] == x);
        }
    }
    assert forall|i: int, j: int| 0 <= i < j < t.len()
        implies capability_rank(t[i]) < capability_rank(t[j]) by {
        if j < s.len() {
            assert(capability_rank(s[i]) < capability_rank(s[j]));
        } else {
            assert(capability_rank(s[i]) < capability_rank(c));
        }
    }
}

/// Law: the reported capabilities are exactly the registered ports, each reported
/// once: a capability occurs in the list if and only if its port is present, no
/// capability occurs twice, and the list follows the fixed capability order.
pub proof fn capabilities_match_registered_ports<L, Z, F, I, A, S>(
    ports: DevicePorts<L, Z, F, I, A, S>,
    capability: Capability,
)
    ensures
        ports.registered_capabilities().contains(capability) <==> ports.supports(capability),
        ports.registered_capabilities().no_duplicates(),
        in_capability_order(ports.registered_capabilities()),
{
    let s0 = Seq::<Capability>::empty();
    let s1 = s0 + optional(ports.zoom_port() is Some, Capability::Zoom);
    let s2 = s1 + optional(ports.focus_port() is Some, Capability::Focus);
    let s3 = s2 + optional(ports.autofocus_port() is Some, Capability::AutoFocus);
    let s4 = s3 + optional(ports.info_port() is Some, Capability::Info);
    let s5 = s4 + optional(ports.stabilization_port() is Some, Capability::Stabilization);
    lemma_append_optional(s0, ports.zoom_port() is Some, Capability::Zoom);
    lemma_append_optional(s1, ports.focus_port() is Some, Capability::Focus);
    lemma_append_optional(s2, ports.autofocus_port() is Some, Capability::AutoFocus);
    lemma_append_optional(s3, ports.info_port() is Some, Capability::Info);
    lemma_append_optional(s4, ports.stabilization_port() is Some, Capability::Stabilization);
    assert(s1 =~= optional(ports.zoom_port() is Some, Capability::Zoom));
    assert(ports.registered_capabilities() =~= s5);
    assert(s5.contains(capability) <==> ports.supports(capability));
    assert forall|i: int, j: int| 0 <= i < s5.len() && 0 <= j < s5.len() && i != j
        implies s5[i] != s5[j] by {
        if i < j {
            assert(capability_rank(s5[i]) < capability_rank(s5[j]));
        } else {
            assert(capability_rank(s5[j]) < capability_rank(s5[i]));
        }
    }
}

} // verus!
