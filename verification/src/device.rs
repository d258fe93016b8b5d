//! Devices: serial numbers, device and connection kinds, and the device
//! record that discovery or explicit construction yields.

use vstd::prelude::*;

use crate::discover::MODBUS_COMMUNICATION_PORT;

verus! {

/// The serial number that designates the in-process emulated device.
pub const EMULATED_DEVICE_SERIAL_NUMBER: i32 = -2;

/// A LabJack serial number; the value [`EMULATED_DEVICE_SERIAL_NUMBER`]
/// designates the in-process emulated device.
#[derive(Debug, Clone, Copy, PartialEq, Eq, Hash, Structural)]
pub struct LabJackSerialNumber(pub i32);

impl LabJackSerialNumber {
    /// Whether this serial number designates the emulated device.
    pub open spec fn spec_is_emulated(self) -> bool {
        self.0 == EMULATED_DEVICE_SERIAL_NUMBER
    }

    /// Whether this serial number designates the emulated device.
    pub fn is_emulated(&self) -> (r: bool)
        ensures
            r == self.spec_is_emulated(),
    {
        self.0 == EMULATED_DEVICE_SERIAL_NUMBER
    }

    /// The serial number of the emulated device.
    pub fn emulated() -> (r: LabJackSerialNumber)
        ensures
            r == (LabJackSerialNumber(EMULATED_DEVICE_SERIAL_NUMBER)),
            r.spec_is_emulated(),
    {
        LabJackSerialNumber(EMULATED_DEVICE_SERIAL_NUMBER)
    }
}

impl core::convert::From<i32> for LabJackSerialNumber {
    fn from(value: i32) -> Self {
        LabJackSerialNumber(value)
    }
}

impl vstd::std_specs::convert::FromSpecImpl<i32> for LabJackSerialNumber {
    open spec fn obeys_from_spec() -> bool {
        true
    }

    open spec fn from_spec(value: i32) -> Self {
        LabJackSerialNumber(value)
    }
}

/// An IP address as plain octet values, most significant first.
#[derive(Debug, Clone, Copy, PartialEq, Eq)]
pub enum IpAddress {
    V4([u8; 4]),
    V6([u8; 16]),
}

impl IpAddress {
    /// The unspecified IPv4 address, used for the emulated device.
    pub fn unspecified() -> (r: IpAddress)
        ensures
            r == (IpAddress::V4([0u8, 0u8, 0u8, 0u8])),
    {
        IpAddress::V4([0u8, 0u8, 0u8, 0u8])
    }
}

/// The kind of a discovered or constructed device.
#[derive(Debug, Clone, Copy, PartialEq, Eq, Structural)]
pub enum DeviceType {
    T4,
    T7,
    T8,
    TSERIES,
    DIGIT,
    ANY,
    EMULATED(i32),
    UNKNOWN(i32),
}

/// The device type a catalog integer stands for.
pub open spec fn spec_device_type_from(value: i32) -> DeviceType {
    if value == 4 {
        DeviceType::T4
    } else if value == 7 {
        DeviceType::T7
    } else if value == 8 {
        DeviceType::T8
    } else if value == 200 {
        DeviceType::DIGIT
    } else if -999 <= value <= -1 {
        DeviceType::EMULATED(value)
    } else {
        DeviceType::UNKNOWN(value)
    }
}

impl core::convert::From<i32> for DeviceType {
    fn from(value: i32) -> Self {
        match value {
            4 => DeviceType::T4,
            7 => DeviceType::T7,
            8 => DeviceType::T8,
            200 => DeviceType::DIGIT,
            -999..=-1 => DeviceType::EMULATED(value),
            _ => DeviceType::UNKNOWN(value),
        }
    }
}

impl vstd::std_specs::convert::FromSpecImpl<i32> for DeviceType {
    open spec fn obeys_from_spec() -> bool {
        true
    }

    open spec fn from_spec(value: i32) -> Self {
        spec_device_type_from(value)
    }
}

/// How a device is reached.
#[derive(Debug, Clone, Copy, PartialEq, Eq, Structural)]
pub enum ConnectionType {
    USB,
    ETHERNET,
    WIFI,
    ANY,
    UNKNOWN(i32),
}

/// The connection type a catalog integer stands for.
pub open spec fn spec_connection_type_from(value: i32) -> ConnectionType {
    if value == 1 {
        ConnectionType::USB
    } else if value == 3 {
        ConnectionType::ETHERNET
    } else if value == 4 {
        ConnectionType::WIFI
    } else {
        ConnectionType::UNKNOWN(value)
    }
}

impl core::convert::From<i32> for ConnectionType {
    fn from(value: i32) -> Self {
        match value {
            1 => ConnectionType::USB,
            3 => ConnectionType::ETHERNET,
            4 => ConnectionType::WIFI,
            _ => ConnectionType::UNKNOWN(value),
        }
    }
}

impl vstd::std_specs::convert::FromSpecImpl<i32> for ConnectionType {
    open spec fn obeys_from_spec() -> bool {
        true
    }

    open spec fn from_spec(value: i32) -> Self {
        spec_connection_type_from(value)
    }
}

/// A located LabJack device: what it is, how it is connected, and where.
#[derive(Debug, Clone, Copy, PartialEq, Eq)]
pub struct LabJackDevice {
    pub device_type: DeviceType,
    pub connection_type: ConnectionType,
    pub ip_address: IpAddress,
    pub serial_number: LabJackSerialNumber,
    pub port: u16,
}

/// The device record of the in-process emulated device.
pub open spec fn spec_emulated_device() -> LabJackDevice {
    LabJackDevice {
        device_type: DeviceType::EMULATED(EMULATED_DEVICE_SERIAL_NUMBER),
        connection_type: ConnectionType::ETHERNET,
        ip_address: IpAddress::V4([0u8, 0u8, 0u8, 0u8]),
        serial_number: LabJackSerialNumber(EMULATED_DEVICE_SERIAL_NUMBER),
        port: MODBUS_COMMUNICATION_PORT,
    }
}

impl LabJackDevice {
    /// Creates the emulated LabJack device that tests run against.
    pub fn emulated() -> (r: LabJackDevice)
        ensures
            r == spec_emulated_device(),
            r.serial_number.spec_is_emulated(),
    {
        LabJackDevice {
            device_type: DeviceType::EMULATED(EMULATED_DEVICE_SERIAL_NUMBER),
            connection_type: ConnectionType::ETHERNET,
            ip_address: IpAddress::unspecified(),
            serial_number: LabJackSerialNumber::emulated(),
            port: MODBUS_COMMUNICATION_PORT,
        }
    }

    /// A device whose address, type and serial are known beforehand, skipping
    /// discovery.
    pub fn known(ip: IpAddress, device_type: DeviceType, serial: LabJackSerialNumber) -> (r:
        LabJackDevice)
        ensures
            r == (LabJackDevice {
                device_type,
                connection_type: ConnectionType::ETHERNET,
                ip_address: ip,
                serial_number: serial,
                port: MODBUS_COMMUNICATION_PORT,
            }),
    {
        LabJackDevice {
            connection_type: ConnectionType::ETHERNET,
            port: MODBUS_COMMUNICATION_PORT,
            ip_address: ip,
            device_type,
            serial_number: serial,
        }
    }
}

} // verus!
