//! Connection-state gating: two flags per device, read afresh each time a
//! command is about to leave.

use vstd::prelude::*;
use std::sync::Arc;
use std::sync::atomic::{AtomicBool, Ordering};
use crate::error::ButtplugClientError;

verus! {

/// The admission decision for a pair of flag values: a dead session is
/// reported before a dead device, and a dead device by its name.
pub open spec fn admission(
    client_connected: bool,
    device_connected: bool,
    device_name: Seq<char>,
    r: Result<(), ButtplugClientError>,
) -> bool {
    match r {
        Ok(()) => client_connected && device_connected,
        Err(ButtplugClientError::ConnectorNotConnected) => !client_connected,
        Err(ButtplugClientError::DeviceNotConnected(name)) => client_connected && !device_connected
            && name@ == device_name,
        Err(_) => false,
    }
}

/// With the session connected and the device not, a command is rejected
/// with the device's name; with both connected it is admitted.
pub proof fn lemma_admission_by_device_flag(
    device_connected: bool,
    device_name: Seq<char>,
    r: Result<(), ButtplugClientError>,
)
    requires
        admission(true, device_connected, device_name, r),
    ensures
        device_connected ==> r is Ok,
        !device_connected ==> (r matches Err(ButtplugClientError::DeviceNotConnected(name))
            && name@ == device_name),
{
}

/// Admits or rejects a command for the flag values read.
pub fn admit_command(client_connected: bool, device_connected: bool, device_name: &String) -> (r: Result<
    (),
    ButtplugClientError,
>)
    ensures
        admission(client_connected, device_connected, device_name@, r),
{
    if !client_connected {
        Err(ButtplugClientError::ConnectorNotConnected)
    } else if !device_connected {
        Err(ButtplugClientError::DeviceNotConnected(device_name.clone()))
    } else {
        Ok(())
    }
}

/// The two liveness flags of one device: that of the session it belongs
/// to, and its own. The owning session sets them from other tasks, so what
/// a read returns is known only once it has returned.
pub struct ConnectionStateGate {
    client_connected: Arc<AtomicBool>,
    device_connected: Arc<AtomicBool>,
}

impl ConnectionStateGate {
    /// A gate with both flags set: a handle is only made for a device
    /// that is connected.
    pub fn new() -> (gate: Self) {
        ConnectionStateGate {
            client_connected: Arc::new(AtomicBool::new(true)),
            device_connected: Arc::new(AtomicBool::new(true)),
        }
    }

    /// Whether the device is connected, as of now.
    pub fn connected(&self) -> (b: bool) {
        self.device_connected.load(Ordering::SeqCst)
    }

    /// Whether the session is connected, as of now.
    pub fn client_connected(&self) -> (b: bool) {
        self.client_connected.load(Ordering::SeqCst)
    }

    /// Records that the device has come or gone.
    pub fn set_device_connected(&self, connected: bool) {
        self.device_connected.store(connected, Ordering::SeqCst);
    }

    /// Records that the session has come or gone.
    pub fn set_client_connected(&self, connected: bool) {
        self.client_connected.store(connected, Ordering::SeqCst);
    }

    /// Reads both flags once and admits or rejects a command for the
    /// device of that name. Whatever the flags held, a rejection is one
    /// of the two admission errors, and names this device.
    pub fn check(&self, device_name: &String) -> (r: Result<(), ButtplugClientError>)
        ensures
            match r {
                Ok(()) => true,
                Err(ButtplugClientError::ConnectorNotConnected) => true,
                Err(ButtplugClientError::DeviceNotConnected(name)) => name@ == device_name@,
                Err(_) => false,
            },
    {
        let client_connected = self.client_connected();
        let device_connected = self.connected();
        admit_command(client_connected, device_connected, device_name)
    }
}

} // verus!
