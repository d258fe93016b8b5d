//! Device records, serial numbers and the kind tables.

use labjack::device::{
    ConnectionType, DeviceType, IpAddress, LabJackDevice, LabJackSerialNumber,
    EMULATED_DEVICE_SERIAL_NUMBER,
};
use labjack::data_types::LabJackDataType;
use labjack::discover::MODBUS_COMMUNICATION_PORT;
use labjack::register::{AccessControl, LabJackEntity, Register};
use labjack::registers::{ain55, dac0, RegisterName};

#[test]
fn serial_number_emulation_marker() {
    assert!(LabJackSerialNumber::emulated().is_emulated());
    assert!(LabJackSerialNumber(EMULATED_DEVICE_SERIAL_NUMBER).is_emulated());
    assert!(!LabJackSerialNumber(470000000).is_emulated());
    assert_eq!(LabJackSerialNumber::from(-2), LabJackSerialNumber::emulated());
}

#[test]
fn device_type_from_integer() {
    assert_eq!(DeviceType::from(4), DeviceType::T4);
    assert_eq!(DeviceType::from(7), DeviceType::T7);
    assert_eq!(DeviceType::from(8), DeviceType::T8);
    assert_eq!(DeviceType::from(200), DeviceType::DIGIT);
    assert_eq!(DeviceType::from(-2), DeviceType::EMULATED(-2));
    assert_eq!(DeviceType::from(-999), DeviceType::EMULATED(-999));
    assert_eq!(DeviceType::from(1000), DeviceType::UNKNOWN(1000));
}

#[test]
fn connection_type_from_integer() {
    assert_eq!(ConnectionType::from(1), ConnectionType::USB);
    assert_eq!(ConnectionType::from(3), ConnectionType::ETHERNET);
    assert_eq!(ConnectionType::from(4), ConnectionType::WIFI);
    assert_eq!(ConnectionType::from(9), ConnectionType::UNKNOWN(9));
}

#[test]
fn emulated_device_record() {
    let device = LabJackDevice::emulated();
    assert_eq!(device.device_type, DeviceType::EMULATED(-2));
    assert_eq!(device.connection_type, ConnectionType::ETHERNET);
    assert_eq!(device.ip_address, IpAddress::V4([0, 0, 0, 0]));
    assert!(device.serial_number.is_emulated());
    assert_eq!(device.port, MODBUS_COMMUNICATION_PORT);
}

#[test]
fn known_device_record() {
    let ip = IpAddress::V4([192, 168, 1, 25]);
    let device = LabJackDevice::known(ip, DeviceType::TSERIES, LabJackSerialNumber(470000000));
    assert_eq!(device.device_type, DeviceType::TSERIES);
    assert_eq!(device.connection_type, ConnectionType::ETHERNET);
    assert_eq!(device.ip_address, ip);
    assert_eq!(device.serial_number, LabJackSerialNumber(470000000));
    assert_eq!(device.port, MODBUS_COMMUNICATION_PORT);
}

#[test]
fn catalog_access_control() {
    assert!(ain55().access.readable());
    assert!(!ain55().access.writable());
    assert!(dac0().access.readable());
    assert!(dac0().access.writable());
    assert!(AccessControl::WritableCtrl.writable());
    assert!(!AccessControl::WritableCtrl.readable());

    // The sum tag resolves to the same entries as the named constructors.
    assert_eq!(RegisterName::Ain55.entry(), ain55());
    assert_eq!(RegisterName::Dac0.entry(), dac0());
    assert_eq!(RegisterName::Dac0.entry().register().address, 1000);
}

#[test]
fn entity_pairs_register_with_catalog_address() {
    let register = Register::new(60000, LabJackDataType::Float32);
    let entity = LabJackEntity::new(60000, register, LabJackDataType::Float32);
    assert_eq!(entity.address, 60000);
    assert_eq!(entity.entry, register);
    assert_eq!(entity.data_type, LabJackDataType::Float32);
}
