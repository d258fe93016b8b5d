//! Discovery of LabJack devices over UDP broadcast: the Feedback request
//! that asks every device on the network for its product id and serial
//! number, and the parsing of each response into a device record.
//!
//! Sending the broadcast and collecting the datagrams is socket work that
//! lives outside the library; it hands each responder's payload, source
//! address and port to [`Discover::parse_response`].

use vstd::prelude::*;

use crate::composite::{ComposedMessage, Compositor, spec_feedback_request};
use crate::data_types::spec_combine32;
use crate::device::{ConnectionType, DeviceType, IpAddress, LabJackDevice, LabJackSerialNumber};
use crate::error::Error;
use crate::function::FeedbackFunction;
use crate::registers::{product_id, serial_number, RegisterName};

verus! {

/// The UDP port on which devices answer Modbus Feedback broadcasts.
pub const MODBUS_FEEDBACK_PORT: u16 = 52362;

/// The TCP port for Modbus communication with a located device.
pub const MODBUS_COMMUNICATION_PORT: u16 = 502;

/// Allows for the global discovery of LabJack devices on a local network
/// through UDP broadcast: it composes the broadcast request and interprets
/// each response.
pub struct Discover;

/// The two read frames of the discovery broadcast: the product id register,
/// then the serial number register.
pub open spec fn spec_discovery_frames() -> Seq<FeedbackFunction> {
    seq![
        FeedbackFunction::ReadRegister(RegisterName::ProductId.spec_entry().register),
        FeedbackFunction::ReadRegister(RegisterName::SerialNumber.spec_entry().register),
    ]
}

/// The device kind announced by the four product-id bytes of a discovery
/// response.
pub open spec fn spec_device_type_of_bytes(b0: u8, b1: u8, b2: u8, b3: u8) -> DeviceType {
    if b0 == 0x41 && b1 == 0x00 && b2 == 0x00 && b3 == 0x00 {
        DeviceType::T8
    } else if b0 == 0x40 && b1 == 0xe0 && b2 == 0x00 && b3 == 0x00 {
        DeviceType::T7
    } else if b0 == 0x40 && b1 == 0x80 && b2 == 0x00 && b3 == 0x00 {
        DeviceType::T4
    } else {
        DeviceType::UNKNOWN(spec_combine32(b0, b1, b2, b3) as i32)
    }
}

/// The device record a discovery response stands for: bytes 8 through 11 name
/// the device kind, bytes 12 through 15 the signed big-endian serial number;
/// a response too short for a field leaves that field unknown or zero.
pub open spec fn spec_discovered_device(buf: Seq<u8>, ip: IpAddress, port: u16) -> LabJackDevice {
    LabJackDevice {
        device_type: if buf.len() >= 12 {
            spec_device_type_of_bytes(buf[8], buf[9], buf[10], buf[11])
        } else {
            DeviceType::UNKNOWN(0)
        },
        connection_type: ConnectionType::ETHERNET,
        ip_address: ip,
        serial_number: LabJackSerialNumber(
            if buf.len() >= 16 {
                spec_combine32(buf[12], buf[13], buf[14], buf[15]) as i32
            } else {
                0
            },
        ),
        port,
    }
}

impl Discover {
    /// Composes the discovery broadcast: a Feedback request under transaction
    /// id 1 and unit id 1 reading the product id and serial number registers.
    pub fn search_request() -> (r: Result<ComposedMessage, Error>)
        ensures
            r is Ok,
            r matches Ok(m) ==> m.content@ == spec_feedback_request(1, 1, spec_discovery_frames())
                && m.header.transaction_id == 1,
    {
        let mut compositor = Compositor::new(0, 1);
        let mut frames: Vec<FeedbackFunction> = Vec::new();
        frames.push(FeedbackFunction::ReadRegister(product_id().register));
        frames.push(FeedbackFunction::ReadRegister(serial_number().register));
        proof {
            assert(frames@ =~= spec_discovery_frames());
            let s = spec_discovery_frames();
            assert(s.drop_last() =~= seq![s[0]]);
            assert(seq![s[0]].drop_last() =~= Seq::<FeedbackFunction>::empty());
            assert(crate::composite::spec_frames_size(Seq::<FeedbackFunction>::empty()) == 0);
            assert(crate::composite::spec_frames_size(seq![s[0]]) == 4);
            assert(crate::composite::spec_frames_size(s) == 8);
            assert(crate::composite::spec_frames_writes_ok(s));
        }
        compositor.compose_feedback(frames.as_slice())
    }

    /// Interprets one discovery response datagram, received from `ip` and
    /// `port`, as a device record. A malformed response never fails: unknown
    /// fields decode to [`DeviceType::UNKNOWN`] and a zero serial.
    pub fn parse_response(buf: &[u8], ip: IpAddress, port: u16) -> (r: LabJackDevice)
        ensures
            r == spec_discovered_device(buf@, ip, port),
    {
        let device_type = if buf.len() >= 12 {
            if buf[8] == 0x41 && buf[9] == 0x00 && buf[10] == 0x00 && buf[11] == 0x00 {
                DeviceType::T8
            } else if buf[8] == 0x40 && buf[9] == 0xe0 && buf[10] == 0x00 && buf[11] == 0x00 {
                DeviceType::T7
            } else if buf[8] == 0x40 && buf[9] == 0x80 && buf[10] == 0x00 && buf[11] == 0x00 {
                DeviceType::T4
            } else {
                DeviceType::UNKNOWN(
                    #[verifier::truncate] (crate::data_types::combine32(
                        buf[8],
                        buf[9],
                        buf[10],
                        buf[11],
                    ) as i32),
                )
            }
        } else {
            DeviceType::UNKNOWN(0)
        };
        let serial: i32 = if buf.len() >= 16 {
            #[verifier::truncate] (crate::data_types::combine32(
                buf[12],
                buf[13],
                buf[14],
                buf[15],
            ) as i32)
        } else {
            0
        };
        LabJackDevice {
            device_type,
            connection_type: ConnectionType::ETHERNET,
            ip_address: ip,
            serial_number: LabJackSerialNumber(serial),
            port,
        }
    }
}

} // verus!
