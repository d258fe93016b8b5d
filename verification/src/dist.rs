//! The entry-point namespace for connecting to LabJack devices.
//!
//! Discovery over the network and TCP connection are socket work that an
//! application drives with [`crate::discover::Discover`] and the transport
//! building blocks; the emulated device needs no I/O and is connected here.

use vstd::prelude::*;

use crate::client::LabJackClient;
use crate::device::{spec_emulated_device, LabJackDevice};
use crate::emulated::{Emulated, EmulatedTransport, EmulatedValue};
use crate::error::Error;

verus! {

/// The entry-point structure for accessing and using LabJack functionality:
/// a namespace for helper methods to connect to LabJack devices.
pub struct LabJack;

impl LabJack {
    /// Connects a client to the in-process emulated device, without any
    /// network I/O: the device record is the emulated one and the transport
    /// starts with no stored values.
    pub fn connect_emulated() -> (r: Result<LabJackClient<EmulatedTransport>, Error>)
        ensures
            r matches Ok(c) && c.spec_device() == spec_emulated_device()
                && c.spec_transport().spec_addresses() == Map::<u16, EmulatedValue>::empty(),
    {
        let device = LabJackDevice::emulated();
        let transport = match Emulated::connect(device) {
            Ok(t) => t,
            Err(e) => {
                return Err(e);
            },
        };
        Ok(LabJackClient::new(device, transport))
    }
}

} // verus!
