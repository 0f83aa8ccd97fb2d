use vstd::prelude::*;

use crate::camera_core::capabilities::Capability;
use crate::camera_core::device::DevicePorts;
use crate::camera_core::error::{DomainError, DomainErrorView};

verus! {

/// The lifecycle of a camera core: `Created → Running → Stopped`.
#[derive(Clone, Copy, Debug, PartialEq, Eq, Structural)]
pub enum LifecycleState {
    Created,
    Running,
    Stopped,
}

/// What a start request asks of the caller before it completes.
#[derive(Clone, Copy, Debug, PartialEq, Eq, Structural)]
pub enum StartStep {
    /// The device must be opened, and the outcome handed to [`CameraCore::finish_start`].
    OpenDevice,
    /// The core already runs; nothing is left to do.
    AlreadyRunning,
}

/// What a stop request asks of the caller after the core has stopped.
#[derive(Clone, Copy, Debug, PartialEq, Eq, Structural)]
pub enum StopStep {
    /// The device was open and must now be closed.
    CloseDevice,
    /// The device was never opened or is already closed.
    Nothing,
}

/// A lifecycle request together with the outcome of the device work it caused.
pub enum LifecycleEvent {
    /// A start request; `open_succeeded` is the outcome of opening the device, when it was opened.
    Start { open_succeeded: bool },
    /// A stop request.
    Stop,
}

/// The lifecycle state after `event`.
pub open spec fn next_state(state: LifecycleState, event: LifecycleEvent) -> LifecycleState {
    match event {
        LifecycleEvent::Start { open_succeeded } => match state {
            LifecycleState::Created => if open_succeeded { LifecycleState::Running } else { LifecycleState::Created },
            LifecycleState::Running => LifecycleState::Running,
            LifecycleState::Stopped => LifecycleState::Stopped,
        },
        LifecycleEvent::Stop => LifecycleState::Stopped,
    }
}

/// Whether `event` in `state` opens the device successfully.
pub open spec fn opens_device(state: LifecycleState, event: LifecycleEvent) -> bool {
    state == LifecycleState::Created && event matches LifecycleEvent::Start { open_succeeded: true }
}

/// Whether `event` in `state` closes the device.
pub open spec fn closes_device(state: LifecycleState, event: LifecycleEvent) -> bool {
    state == LifecycleState::Running && event is Stop
}

/// The lifecycle state after a sequence of events.
pub open spec fn state_after(state: LifecycleState, events: Seq<LifecycleEvent>) -> LifecycleState
    decreases events.len(),
{
    if events.len() == 0 {
        state
    } else {
        state_after(next_state(state, events[0]), events.drop_first())
    }
}

/// How many times a sequence of events opens the device successfully.
pub open spec fn successful_opens(state: LifecycleState, events: Seq<LifecycleEvent>) -> nat
    decreases events.len(),
{
    if events.len() == 0 {
        0
    } else {
        (if opens_device(state, events[0]) { 1nat } else { 0nat })
            + successful_opens(next_state(state, events[0]), events.drop_first())
    }
}

/// How many times a sequence of events closes the device.
pub open spec fn closes(state: LifecycleState, events: Seq<LifecycleEvent>) -> nat
    decreases events.len(),
{
    if events.len() == 0 {
        0
    } else {
        (if closes_device(state, events[0]) { 1nat } else { 0nat })
            + closes(next_state(state, events[0]), events.drop_first())
    }
}

/// The error of a capability operation, or `None` when the operation may proceed:
/// a core that does not run refuses first, then a missing port.
pub open spec fn operation_error(
    state: LifecycleState,
    supported: bool,
    capability_name: Seq<char>,
) -> Option<DomainErrorView> {
    if state != LifecycleState::Running {
        Some(DomainErrorView::NotRunning)
    } else if !supported {
        Some(DomainErrorView::UnsupportedCapability(capability_name))
    } else {
        None
    }
}

/// Coordinates device lifecycle and capability use cases for API adapters.
///
/// The core decides; the caller performs the device work each decision names
/// and reports its outcome back.
pub struct CameraCore<L, Z, F, I, A, S> {
    ports: DevicePorts<L, Z, F, I, A, S>,
    lifecycle: LifecycleState,
}

impl<L, Z, F, I, A, S> CameraCore<L, Z, F, I, A, S> {
    pub closed spec fn state(&self) -> LifecycleState {
        self.lifecycle
    }

    pub closed spec fn device_ports(&self) -> DevicePorts<L, Z, F, I, A, S> {
        self.ports
    }

    /// Creates a core around one device-port aggregate.
    pub fn new(ports: DevicePorts<L, Z, F, I, A, S>) -> (r: Self)
        ensures
            r.state() == LifecycleState::Created,
            r.device_ports() == ports,
    {
        CameraCore { ports, lifecycle: LifecycleState::Created }
    }

    /// The registered device ports.
    pub fn ports(&self) -> (r: &DevicePorts<L, Z, F, I, A, S>)
        ensures
            *r == self.device_ports(),
    {
        &self.ports
    }

    /// The current lifecycle state.
    pub fn lifecycle_state(&self) -> (r: LifecycleState)
        ensures
            r == self.state(),
    {
        self.lifecycle
    }

    /// Decides a start request: open the device once from `Created`, do nothing
    /// while running, and refuse once stopped.
    pub fn start_step(&self) -> (r: Result<StartStep, DomainError>)
        ensures
            match r {
                Ok(step) => (step == StartStep::OpenDevice <==> self.state() == LifecycleState::Created)
                    && (step == StartStep::AlreadyRunning <==> self.state() == LifecycleState::Running),
                Err(e) => self.state() == LifecycleState::Stopped && e@ == DomainErrorView::NotRunning,
            },
    {
        match self.lifecycle {
            LifecycleState::Created => Ok(StartStep::OpenDevice),
            LifecycleState::Running => Ok(StartStep::AlreadyRunning),
            LifecycleState::Stopped => Err(DomainError::NotRunning),
        }
    }

    /// Completes a start request with the outcome of opening the device: the core
    /// runs only once the device opened; a failed open leaves it created.
    pub fn finish_start(&mut self, opened: Result<(), DomainError>) -> (r: Result<(), DomainError>)
        ensures
            r == opened,
            final(self).state() == next_state(
                old(self).state(),
                LifecycleEvent::Start { open_succeeded: opened is Ok },
            ),
            final(self).device_ports() == old(self).device_ports(),
    {
        if opened.is_ok() && self.lifecycle == LifecycleState::Created {
            self.lifecycle = LifecycleState::Running;
        }
        opened
    }

    /// Stops the core; the result says whether the device must be closed, which is
    /// so exactly when the core was running.
    pub fn stop(&mut self) -> (r: StopStep)
        ensures
            final(self).state() == next_state(old(self).state(), LifecycleEvent::Stop),
            final(self).state() == LifecycleState::Stopped,
            (r == StopStep::CloseDevice) == closes_device(old(self).state(), LifecycleEvent::Stop),
            final(self).device_ports() == old(self).device_ports(),
    {
        let was_running = self.lifecycle == LifecycleState::Running;
        self.lifecycle = LifecycleState::Stopped;
        if was_running {
            StopStep::CloseDevice
        } else {
            StopStep::Nothing
        }
    }

    /// Succeeds exactly while the core runs.
    pub fn require_running(&self) -> (r: Result<(), DomainError>)
        ensures
            r is Ok <==> self.state() == LifecycleState::Running,
            r matches Err(e) ==> e@ == DomainErrorView::NotRunning,
    {
        if self.lifecycle == LifecycleState::Running {
            Ok(())
        } else {
            Err(DomainError::NotRunning)
        }
    }

    /// The zoom port for a zoom operation.
    pub fn zoom_capability(&self) -> (r: Result<&Z, DomainError>)
        ensures
            match r {
                Ok(p) => operation_error(self.state(), true, "zoom"@) is None
                    && self.device_ports().zoom_port() == Some(*p),
                Err(e) => operation_error(self.state(), self.device_ports().zoom_port() is Some, "zoom"@)
                    == Some(e@),
            },
            self.state() != LifecycleState::Running ==> (r matches Err(e)
                && e@ == DomainErrorView::NotRunning),
            self.state() == LifecycleState::Running && self.device_ports().zoom_port() is None
                ==> (r matches Err(e) && e@ == DomainErrorView::UnsupportedCapability("zoom"@)),
            self.state() == LifecycleState::Running && self.device_ports().zoom_port() is Some
                ==> (r matches Ok(p) && self.device_ports().zoom_port() == Some(*p)),
    {
        self.require_running()?;
        match self.ports.zoom() {
            Some(p) => Ok(p),
            None => Err(DomainError::UnsupportedCapability("zoom")),
        }
    }

    /// The focus port for a focus operation.
    pub fn focus_capability(&self) -> (r: Result<&F, DomainError>)
        ensures
            match r {
                Ok(p) => operation_error(self.state(), true, "focus"@) is None
                    && self.device_ports().focus_port() == Some(*p),
                Err(e) => operation_error(self.state(), self.device_ports().focus_port() is Some, "focus"@)
                    == Some(e@),
            },
            self.state() != LifecycleState::Running ==> (r matches Err(e)
                && e@ == DomainErrorView::NotRunning),
            self.state() == LifecycleState::Running && self.device_ports().focus_port() is None
                ==> (r matches Err(e) && e@ == DomainErrorView::UnsupportedCapability("focus"@)),
            self.state() == LifecycleState::Running && self.device_ports().focus_port() is Some
                ==> (r matches Ok(p) && self.device_ports().focus_port() == Some(*p)),
    {
        self.require_running()?;
        match self.ports.focus() {
            Some(p) => Ok(p),
            None => Err(DomainError::UnsupportedCapability("focus")),
        }
    }

    /// The information port for an information request.
    pub fn info_capability(&self) -> (r: Result<&I, DomainError>)
        ensures
            match r {
                Ok(p) => operation_error(self.state(), true, "info"@) is None
                    && self.device_ports().info_port() == Some(*p),
                Err(e) => operation_error(self.state(), self.device_ports().info_port() is Some, "info"@)
                    == Some(e@),
            },
            self.state() != LifecycleState::Running ==> (r matches Err(e)
                && e@ == DomainErrorView::NotRunning),
            self.state() == LifecycleState::Running && self.device_ports().info_port() is None
                ==> (r matches Err(e) && e@ == DomainErrorView::UnsupportedCapability("info"@)),
            self.state() == LifecycleState::Running && self.device_ports().info_port() is Some
                ==> (r matches Ok(p) && self.device_ports().info_port() == Some(*p)),
    {
        self.require_running()?;
        match self.ports.info() {
            Some(p) => Ok(p),
            None => Err(DomainError::UnsupportedCapability("info")),
        }
    }

    /// The autofocus port for an autofocus operation.
    pub fn autofocus_capability(&self) -> (r: Result<&A, DomainError>)
        ensures
            match r {
                Ok(p) => operation_error(self.state(), true, "autofocus"@) is None
                    && self.device_ports().autofocus_port() == Some(*p),
                Err(e) => operation_error(
                    self.state(),
                    self.device_ports().autofocus_port() is Some,
                    "autofocus"@,
                ) == Some(e@),
            },
            self.state() != LifecycleState::Running ==> (r matches Err(e)
                && e@ == DomainErrorView::NotRunning),
            self.state() == LifecycleState::Running && self.device_ports().autofocus_port() is None
                ==> (r matches Err(e) && e@ == DomainErrorView::UnsupportedCapability("autofocus"@)),
            self.state() == LifecycleState::Running && self.device_ports().autofocus_port() is Some
                ==> (r matches Ok(p) && self.device_ports().autofocus_port() == Some(*p)),
    {
        self.require_running()?;
        match self.ports.autofocus() {
            Some(p) => Ok(p),
            None => Err(DomainError::UnsupportedCapability("autofocus")),
        }
    }

    /// The stabilization port for a stabilization operation.
    pub fn stabilization_capability(&self) -> (r: Result<&S, DomainError>)
        ensures
            match r {
                Ok(p) => operation_error(self.state(), true, "stabilization"@) is None
                    && self.device_ports().stabilization_port() == Some(*p),
                Err(e) => operation_error(
                    self.state(),
                    self.device_ports().stabilization_port() is Some,
                    "stabilization"@,
                ) == Some(e@),
            },
            self.state() != LifecycleState::Running ==> (r matches Err(e)
                && e@ == DomainErrorView::NotRunning),
            self.state() == LifecycleState::Running && self.device_ports().stabilization_port() is None
                ==> (r matches Err(e) && e@ == DomainErrorView::UnsupportedCapability("stabilization"@)),
            self.state() == LifecycleState::Running && self.device_ports().stabilization_port() is Some
                ==> (r matches Ok(p) && self.device_ports().stabilization_port() == Some(*p)),
    {
        self.require_running()?;
        match self.ports.stabilization() {
            Some(p) => Ok(p),
            None => Err(DomainError::UnsupportedCapability("stabilization")),
        }
    }

    /// Returns the capabilities derived from the registered ports, while running.
    pub fn capabilities(&self) -> (r: Result<Vec<Capability>, DomainError>)
        ensures
            match r {
                Ok(caps) => self.state() == LifecycleState::Running
                    && caps@ == self.device_ports().registered_capabilities(),
                Err(e) => self.state() != LifecycleState::Running && e@ == DomainErrorView::NotRunning,
            },
    {
        self.require_running()?;
        Ok(self.ports.capabilities())
    }
}

/// Law: a capability operation on a core that is not running is refused with
/// `NotRunning`, whether or not its port is registered; a running core refuses
/// it with `UnsupportedCapability(name)` exactly when the port is missing, and
/// lets it proceed exactly when the port is registered.
pub proof fn running_is_checked_before_ports(
    state: LifecycleState,
    supported: bool,
    capability_name: Seq<char>,
)
    ensures
        state != LifecycleState::Running
            ==> operation_error(state, supported, capability_name) == Some(DomainErrorView::NotRunning),
        state == LifecycleState::Running && !supported
            ==> operation_error(state, supported, capability_name)
                == Some(DomainErrorView::UnsupportedCapability(capability_name)),
        operation_error(state, supported, capability_name) is None
            <==> (state == LifecycleState::Running && supported),
{
}

/// Law: once stopped, a core stays stopped, whatever is asked of it.
pub proof fn stopped_is_final(event: LifecycleEvent)
    ensures
        next_state(LifecycleState::Stopped, event) == LifecycleState::Stopped,
        !opens_device(LifecycleState::Stopped, event),
        !closes_device(LifecycleState::Stopped, event),
{
}

/// Law: starting a running core and stopping a stopped core change nothing and
/// touch no device.
pub proof fn start_and_stop_are_idempotent(open_succeeded: bool)
    ensures
        next_state(LifecycleState::Running, LifecycleEvent::Start { open_succeeded })
            == LifecycleState::Running,
        !opens_device(LifecycleState::Running, LifecycleEvent::Start { open_succeeded }),
        next_state(LifecycleState::Stopped, LifecycleEvent::Stop) == LifecycleState::Stopped,
        !closes_device(LifecycleState::Stopped, LifecycleEvent::Stop),
{
}

proof fn lemma_lifecycle_counts(state: LifecycleState, events: Seq<LifecycleEvent>)
    ensures
        state == LifecycleState::Created ==> {
            &&& successful_opens(state, events) <= 1
            &&& closes(state, events) <= successful_opens(state, events)
            &&& (state_after(state, events) == LifecycleState::Running
                <==> (successful_opens(state, events) == 1 && closes(state, events) == 0))
        },
        state == LifecycleState::Running ==> {
            &&& successful_opens(state, events) == 0
            &&& closes(state, events) <= 1
            &&& (state_after(state, events) == LifecycleState::Running <==> closes(state, events) == 0)
        },
        state == LifecycleState::Stopped ==> {
            &&& successful_opens(state, events) == 0
            &&& closes(state, events) == 0
            &&& state_after(state, events) == LifecycleState::Stopped
        },
    decreases events.len(),
{
    if events.len() > 0 {
        lemma_lifecycle_counts(next_state(state, events[0]), events.drop_first());
    }
}

/// Law: from a fresh core, any sequence of start and stop requests opens the
/// device successfully at most once, closes it at most once and only after it
/// opened, and the core runs exactly while the device is open.
pub proof fn device_opens_and_closes_at_most_once(events: Seq<LifecycleEvent>)
    ensures
        successful_opens(LifecycleState::Created, events) <= 1,
        closes(LifecycleState::Created, events) <= successful_opens(LifecycleState::Created, events),
        state_after(LifecycleState::Created, events) == LifecycleState::Running
            <==> (successful_opens(LifecycleState::Created, events) == 1
                && closes(LifecycleState::Created, events) == 0),
{
    lemma_lifecycle_counts(LifecycleState::Created, events);
}

} // verus!
