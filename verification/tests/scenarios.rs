//! Full request/reply walks over the wire format: compose, validate, extract
//! and decode, byte for byte.

use labjack::composite::{Compositor, Header};
use labjack::data_types::{LabJackDataType, LabJackDataValue};
use labjack::device::{ConnectionType, DeviceType, IpAddress};
use labjack::discover::Discover;
use labjack::error::{Error, ExceptionCode};
use labjack::function::{ReadFunction, WriteFunction};
use labjack::register::Register;
use labjack::registers::{dac0, fio0, test_uint32};
use labjack::validate::{
    decode_read_reply, get_reply_data, validate_response_code, validate_response_header,
};

#[test]
fn read_u16_round_trip() {
    let mut compositor = Compositor::new(1, 1);
    let message = compositor
        .compose_read(&ReadFunction(fio0().register))
        .expect("must compose");
    assert_eq!(
        message.content,
        vec![0x00, 0x02, 0x00, 0x00, 0x00, 0x06, 0x01, 0x03, 0x07, 0xD0, 0x00, 0x01]
    );
    assert_eq!(message.expected_bytes, 2);

    let reply = [0x00, 0x02, 0x00, 0x00, 0x00, 0x05, 0x01, 0x03, 0x02, 0x00, 0x2A];
    let reply_header = Header::unpack(&reply).expect("reply has a header");
    validate_response_header(&message.header, &reply_header).expect("header matches");
    validate_response_code(&message.content, &reply).expect("code matches");
    let data = get_reply_data(&reply, message.expected_bytes).expect("payload sized");
    let value = LabJackDataValue::from_bytes(LabJackDataType::Uint16, data).expect("decodes");
    assert_eq!(value, LabJackDataValue::Uint16(42));
}

#[test]
fn read_u32_round_trip() {
    let mut compositor = Compositor::new(1, 1);
    let message = compositor
        .compose_read(&ReadFunction(test_uint32().register))
        .expect("must compose");
    assert_eq!(
        message.content,
        vec![0x00, 0x02, 0x00, 0x00, 0x00, 0x06, 0x01, 0x03, 0xD7, 0x50, 0x00, 0x02]
    );

    let reply = [
        0x00, 0x02, 0x00, 0x00, 0x00, 0x07, 0x01, 0x03, 0x04, 0xC0, 0xBC, 0xCC, 0xCD,
    ];
    let reply_header = Header::unpack(&reply).expect("reply has a header");
    validate_response_header(&message.header, &reply_header).expect("header matches");
    validate_response_code(&message.content, &reply).expect("code matches");
    let data = get_reply_data(&reply, message.expected_bytes).expect("payload sized");
    let value = LabJackDataValue::from_bytes(LabJackDataType::Uint32, data).expect("decodes");
    assert_eq!(value, LabJackDataValue::Uint32(0xC0BCCCCD));
}

#[test]
fn write_f32_round_trip() {
    let mut compositor = Compositor::new(1, 1);
    let message = compositor
        .compose_write(&WriteFunction(
            dac0().register,
            LabJackDataValue::Float32(3.3f32.to_bits()),
        ))
        .expect("must compose");
    assert_eq!(
        message.content,
        vec![
            0x00, 0x02, 0x00, 0x00, 0x00, 0x0B, 0x01, 0x10, 0x03, 0xE8, 0x00, 0x02, 0x04, 0x40,
            0x53, 0x33, 0x33
        ]
    );
    assert_eq!(message.expected_bytes, 4);

    // The device echoes the starting address and register count.
    let reply = [0x00, 0x02, 0x00, 0x00, 0x00, 0x06, 0x01, 0x10, 0x03, 0xE8, 0x00, 0x02];
    let reply_header = Header::unpack(&reply).expect("reply has a header");
    validate_response_header(&message.header, &reply_header).expect("header matches");
    validate_response_code(&message.content, &reply).expect("code matches");
}

#[test]
fn exception_reply() {
    let mut compositor = Compositor::new(0, 1);
    let message = compositor
        .compose_read(&ReadFunction(Register::new(0, LabJackDataType::Uint16)))
        .expect("must compose");
    assert_eq!(
        message.content,
        vec![0x00, 0x01, 0x00, 0x00, 0x00, 0x06, 0x01, 0x03, 0x00, 0x00, 0x00, 0x01]
    );

    let reply = [0x00, 0x01, 0x00, 0x00, 0x00, 0x03, 0x01, 0x83, 0x02];
    let reply_header = Header::unpack(&reply).expect("reply has a header");
    validate_response_header(&message.header, &reply_header).expect("header matches");
    let r = validate_response_code(&message.content, &reply);
    assert!(matches!(
        r,
        Err(Error::Exception(ExceptionCode::IllegalDataAddress))
    ));
}

#[test]
fn discovery_parse_mocked_responder() {
    // A Feedback reply whose data bytes carry the product id 7.0 (a T7) and
    // the serial number 456.
    let datagram = [
        0x00, 0x01, 0x00, 0x00, 0x00, 0x0A, 0x01, 0x4C, 0x40, 0xE0, 0x00, 0x00, 0x00, 0x00, 0x01,
        0xC8,
    ];
    let device = Discover::parse_response(
        &datagram,
        IpAddress::V4([192, 168, 1, 12]),
        52362,
    );
    assert_eq!(device.device_type, DeviceType::T7);
    assert_eq!(device.serial_number.0, 456);
    assert_eq!(device.connection_type, ConnectionType::ETHERNET);
    assert_eq!(device.ip_address, IpAddress::V4([192, 168, 1, 12]));
    assert_eq!(device.port, 52362);
}

#[test]
fn discovery_parse_other_kinds() {
    let t8 = [
        0u8, 1, 0, 0, 0, 0x0A, 1, 0x4C, 0x41, 0x00, 0x00, 0x00, 0x00, 0x00, 0x00, 0x07,
    ];
    let device = Discover::parse_response(&t8, IpAddress::V4([10, 0, 0, 1]), 52362);
    assert_eq!(device.device_type, DeviceType::T8);
    assert_eq!(device.serial_number.0, 7);

    let t4 = [
        0u8, 1, 0, 0, 0, 0x0A, 1, 0x4C, 0x40, 0x80, 0x00, 0x00, 0xFF, 0xFF, 0xFF, 0xFF,
    ];
    let device = Discover::parse_response(&t4, IpAddress::V4([10, 0, 0, 2]), 52362);
    assert_eq!(device.device_type, DeviceType::T4);
    assert_eq!(device.serial_number.0, -1);

    // An unrecognised product id decodes to its raw integer; a datagram too
    // short for a serial number leaves it zero.
    let unknown = [0u8, 1, 0, 0, 0, 0x0A, 1, 0x4C, 0x3F, 0x80, 0x00, 0x00];
    let device = Discover::parse_response(&unknown, IpAddress::V4([10, 0, 0, 3]), 52362);
    assert_eq!(device.device_type, DeviceType::UNKNOWN(0x3F800000));
    assert_eq!(device.serial_number.0, 0);
}

#[test]
fn discovery_request_bytes() {
    let message = Discover::search_request().expect("must compose");
    assert_eq!(
        message.content,
        vec![
            0x00, 0x01, // transaction id 1
            0x00, 0x00, // protocol id
            0x00, 0x0A, // length
            0x01, // unit id
            0x4C, // feedback function
            0x00, 0xEA, 0x60, 0x02, // read PRODUCT_ID (60000), two words
            0x00, 0xEA, 0x7C, 0x02, // read SERIAL_NUMBER (60028), two words
        ]
    );
}

#[test]
fn reply_pipeline_end_to_end() {
    let mut compositor = Compositor::new(1, 1);
    let message = compositor
        .compose_read(&ReadFunction(fio0().register))
        .expect("must compose");

    let reply = [0x00, 0x02, 0x00, 0x00, 0x00, 0x05, 0x01, 0x03, 0x02, 0x00, 0x2A];
    let value = decode_read_reply(
        &message.header,
        &message.content,
        message.expected_bytes,
        LabJackDataType::Uint16,
        &reply,
    )
    .expect("a matching reply decodes");
    assert_eq!(value, LabJackDataValue::Uint16(42));

    // The same reply under a foreign transaction id reaches no caller.
    let foreign = [0x00, 0x09, 0x00, 0x00, 0x00, 0x05, 0x01, 0x03, 0x02, 0x00, 0x2A];
    let r = decode_read_reply(
        &message.header,
        &message.content,
        message.expected_bytes,
        LabJackDataType::Uint16,
        &foreign,
    );
    assert!(matches!(r, Err(Error::InvalidResponse)));

    // An exception reply surfaces the device's exception code.
    let exception = [0x00, 0x02, 0x00, 0x00, 0x00, 0x03, 0x01, 0x83, 0x06];
    let r = decode_read_reply(
        &message.header,
        &message.content,
        message.expected_bytes,
        LabJackDataType::Uint16,
        &exception,
    );
    assert!(matches!(
        r,
        Err(Error::Exception(ExceptionCode::SlaveOrServerBusy))
    ));
}
