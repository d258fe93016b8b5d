//! The client: a connected device paired with a transport, exposing typed
//! register reads and writes and the conversion hooks around them.

use vstd::prelude::*;

use crate::conversion::{Adc, Dac};
use crate::data_types::LabJackDataValue;
use crate::device::LabJackDevice;
use crate::error::Error;
use crate::function::{ReadFunction, WriteFunction};
use crate::register::Register;
use crate::transport::Transport;

verus! {

/// A connected LabJack: the located device and the transport that reaches
/// it. The client pairs each register operation with the right request
/// description and hands back exactly what the transport's own contract
/// guarantees for that request — nothing is added, dropped or transformed
/// on the way, beyond the conversion a caller asks for.
#[derive(Debug)]
pub struct LabJackClient<T: Transport> {
    pub device: LabJackDevice,
    transport: T,
}

impl<T: Transport> LabJackClient<T> {
    /// The transport this client issues its requests through.
    pub closed spec fn spec_transport(self) -> T {
        self.transport
    }

    /// The device this client is connected to.
    pub closed spec fn spec_device(self) -> LabJackDevice {
        self.device
    }

    pub fn new(device: LabJackDevice, transport: T) -> (r: LabJackClient<T>)
        ensures
            r.spec_device() == device,
            r.spec_transport() == transport,
    {
        LabJackClient { device, transport }
    }

    /// Reads a singular value from a given address on the LabJack: one read
    /// request against the transport, whose outcome is returned untouched.
    pub fn read_register(&mut self, address: Register) -> (r: Result<LabJackDataValue, Error>)
        ensures
            final(self).spec_device() == old(self).spec_device(),
            T::spec_read_post(
                old(self).spec_transport(),
                final(self).spec_transport(),
                ReadFunction(address),
                r,
            ),
    {
        self.transport.read(ReadFunction(address))
    }

    /// Writes a singular value to a given address on the LabJack: one write
    /// request against the transport, whose outcome is returned untouched.
    pub fn write_register(&mut self, address: Register, value: LabJackDataValue) -> (r: Result<
        (),
        Error,
    >)
        ensures
            final(self).spec_device() == old(self).spec_device(),
            T::spec_write_post(
                old(self).spec_transport(),
                final(self).spec_transport(),
                WriteFunction(address, value),
                r,
            ),
    {
        self.transport.write(WriteFunction(address, value))
    }

    /// Reads a value and passes it through the channel's analog-to-digital
    /// conversion: on success the result is the conversion of exactly the
    /// value the transport returned for this read; an error is returned
    /// unchanged and nothing is converted.
    pub fn read<An: Adc<Ctx>, Ctx>(&mut self, address: Register, channel: An, context: Ctx) -> (r:
        Result<An::Digital, Error>)
        ensures
            final(self).spec_device() == old(self).spec_device(),
            r matches Ok(digital) ==> exists|value: LabJackDataValue|
                #[trigger] T::spec_read_post(
                    old(self).spec_transport(),
                    final(self).spec_transport(),
                    ReadFunction(address),
                    Ok(value),
                ) && digital == channel.spec_digital(context, value),
            r matches Err(e) ==> T::spec_read_post(
                old(self).spec_transport(),
                final(self).spec_transport(),
                ReadFunction(address),
                Err(e),
            ),
    {
        match self.read_register(address) {
            Ok(value) => {
                let digital = channel.to_digital(context, value);
                proof {
                    assert(T::spec_read_post(
                        old(self).spec_transport(),
                        self.spec_transport(),
                        ReadFunction(address),
                        Ok(value),
                    ));
                }
                Ok(digital)
            },
            Err(e) => Err(e),
        }
    }

    /// Passes a digital quantity through the channel's digital-to-analog
    /// conversion and writes the resulting value: one write request carrying
    /// exactly the converted value, whose outcome is returned untouched.
    pub fn write<An: Dac>(&mut self, address: Register, channel: An, digital: An::Digital) -> (r:
        Result<(), Error>)
        ensures
            final(self).spec_device() == old(self).spec_device(),
            T::spec_write_post(
                old(self).spec_transport(),
                final(self).spec_transport(),
                WriteFunction(address, channel.spec_voltage(digital)),
                r,
            ),
    {
        let value = channel.to_voltage(digital);
        self.write_register(address, value)
    }
}

} // verus!
