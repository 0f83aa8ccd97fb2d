use vstd::prelude::*;

use crate::camera_core::capabilities::Capability;

verus! {

/// The `camera.v1.Capability` protobuf enumeration.
#[derive(Debug, Clone, Copy, PartialEq, Eq, Structural)]
pub enum ProtoCapability {
    Unspecified,
    Zoom,
    Focus,
    AutoFocus,
    Info,
    Stabilization,
}

/// The wire number of a protobuf capability.
pub open spec fn proto_number(c: ProtoCapability) -> i32 {
    match c {
        ProtoCapability::Unspecified => 0,
        ProtoCapability::Zoom => 1,
        ProtoCapability::Focus => 2,
        ProtoCapability::AutoFocus => 3,
        ProtoCapability::Info => 4,
        ProtoCapability::Stabilization => 5,
    }
}

/// The protobuf capability a core capability is reported as.
pub open spec fn proto_of(c: Capability) -> ProtoCapability {
    match c {
        Capability::Zoom => ProtoCapability::Zoom,
        Capability::Focus => ProtoCapability::Focus,
        Capability::AutoFocus => ProtoCapability::AutoFocus,
        Capability::Info => ProtoCapability::Info,
        Capability::Stabilization => ProtoCapability::Stabilization,
    }
}

impl ProtoCapability {
    /// The wire number of this capability.
    pub fn number(self) -> (r: i32)
        ensures
            r == proto_number(self),
    {
        match self {
            ProtoCapability::Unspecified => 0,
            ProtoCapability::Zoom => 1,
            ProtoCapability::Focus => 2,
            ProtoCapability::AutoFocus => 3,
            ProtoCapability::Info => 4,
            ProtoCapability::Stabilization => 5,
        }
    }
}

/// Converts a core capability to its protobuf enumeration value.
pub fn to_proto_capability(capability: Capability) -> (r: ProtoCapability)
    ensures
        r == proto_of(capability),
{
    match capability {
        Capability::Zoom => ProtoCapability::Zoom,
        Capability::Focus => ProtoCapability::Focus,
        Capability::AutoFocus => ProtoCapability::AutoFocus,
        Capability::Info => ProtoCapability::Info,
        Capability::Stabilization => ProtoCapability::Stabilization,
    }
}

/// The wire numbers of a capability list, in the same order, as a
/// `GetCapabilities` response carries them.
pub fn capability_numbers(capabilities: &Vec<Capability>) -> (r: Vec<i32>)
    ensures
        r@.len() == capabilities@.len(),
        forall|i: int| 0 <= i < r@.len() ==> r@[i] == proto_number(proto_of(#[trigger] capabilities@[i])),
{
    let mut numbers: Vec<i32> = Vec::with_capacity(capabilities.len());
    for i in 0..capabilities.len()
        invariant
            numbers@.len() == i,
            forall|j: int| 0 <= j < i ==> numbers@[j] == proto_number(proto_of(#[trigger] capabilities@[j])),
    {
        numbers.push(to_proto_capability(capabilities[i]).number());
    }
    numbers
}

/// Law: distinct core capabilities are reported with distinct wire numbers, and
/// never as the unspecified value 0.
pub proof fn proto_numbers_are_distinct(a: Capability, b: Capability)
    ensures
        proto_number(proto_of(a)) != 0,
        proto_number(proto_of(a)) == proto_number(proto_of(b)) <==> a == b,
{
}

} // verus!
