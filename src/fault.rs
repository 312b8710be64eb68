//! Fatal conditions and the halted state they put the device in.
use vstd::prelude::*;
use crate::encoder::EncodeError;

verus! {

/// A condition after which the device stops rather than run degraded.
#[derive(Clone, Copy, Debug, PartialEq, Eq, Structural)]
pub enum Fault {
    /// The encoder refused the command state.
    Encode(EncodeError),
    /// The pulse output channel reported a failed transmission.
    Transmit,
    /// A shared resource was used before start-up filled it.
    MissingResource,
}

/// Whether the device is running or has halted on a fault.
#[derive(Clone, Copy, Debug, PartialEq, Eq, Structural)]
pub enum DeviceStatus {
    Running,
    Halted(Fault),
}

impl DeviceStatus {
    /// Whether the track output is still driven: only a running device
    /// transmits; a halted one leaves the bus silent.
    pub fn track_driven(&self) -> (r: bool)
        ensures
            r == (*self == DeviceStatus::Running),
    {
        match self {
            DeviceStatus::Running => true,
            DeviceStatus::Halted(_) => false,
        }
    }
}

/// Halts the device on `fault`. A device already halted keeps the fault
/// that stopped it first.
pub fn panic(status: &mut DeviceStatus, fault: Fault)
    ensures
        *final(status) == match *old(status) {
            DeviceStatus::Running => DeviceStatus::Halted(fault),
            DeviceStatus::Halted(first) => DeviceStatus::Halted(first),
        },
{
    if let DeviceStatus::Running = *status {
        *status = DeviceStatus::Halted(fault);
    }
}

} // verus!
