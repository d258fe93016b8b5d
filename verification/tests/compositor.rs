//! Wire-exact checks of the request compositor: reads, writes, and Feedback
//! bundles.

use labjack::composite::{ComposedMessage, Compositor, MODBUS_UNIT_ID};
use labjack::data_types::LabJackDataValue;
use labjack::function::{FeedbackFunction, ReadFunction, WriteFunction};
use labjack::registers::{ain55, ain56, dac0, fio0, product_id, test_uint16, test_uint32};

#[test]
fn write_standard() {
    let mut compositor = Compositor::new(1, MODBUS_UNIT_ID);

    let register = ain55().register;
    let write_function = WriteFunction(register, LabJackDataValue::Float32(16f32.to_bits()));
    let ComposedMessage { content, .. } = compositor
        .compose_write(&write_function)
        .expect("Must-compose");

    let spanning_registers = ain55().register.data_type.size();
    let expected_size = 2 * spanning_registers;

    assert_eq!(compositor.transaction_id.to_be_bytes(), content[0..2]); // TransactionID
    assert_eq!([0x00, 0x00], content[2..4]); // ProtocolID
    assert_eq!((expected_size + 7).to_be_bytes(), content[4..6]); // Length (MSB-LSB)
    assert_eq!([MODBUS_UNIT_ID, 0x10], content[6..8]); // UnitID & Write Function Code
    assert_eq!(ain55().register.address.to_be_bytes(), content[8..10]);
    assert_eq!(spanning_registers.to_be_bytes(), content[10..12]);
    assert_eq!(expected_size as u8, content[12]);
}

#[test]
fn write_dac_zero() {
    let mut compositor = Compositor::new(1, MODBUS_UNIT_ID);

    let write_function = WriteFunction(
        dac0().register,
        LabJackDataValue::Float32(3.3f32.to_bits()),
    );
    let ComposedMessage { content, .. } = compositor
        .compose_write(&write_function)
        .expect("Must-compose");

    assert_eq!(compositor.transaction_id.to_be_bytes(), content[0..2]); // TransactionID
    assert_eq!(
        [
            0x00, 0x00, 0x00, 0x0B, 0x01, 0x10, 0x03, 0xE8, 0x00, 0x02, 0x04, 0x40, 0x53, 0x33,
            0x33
        ],
        content[2..]
    );
}

#[test]
fn write_test_u32() {
    let mut compositor = Compositor::new(1, MODBUS_UNIT_ID);

    let write_function = WriteFunction(
        test_uint32().register,
        LabJackDataValue::Uint32(0xC0BCCCCD),
    );
    let ComposedMessage { content, .. } = compositor
        .compose_write(&write_function)
        .expect("Must-compose");

    assert_eq!(compositor.transaction_id.to_be_bytes(), content[0..2]); // TransactionID
    assert_eq!(
        [
            0x00, 0x00, 0x00, 0x0B, 0x01, 0x10, 0xD7, 0x50, 0x00, 0x02, 0x04, 0xC0, 0xBC, 0xCC,
            0xCD
        ],
        content[2..]
    );
}

#[test]
fn read_test_u32() {
    let mut compositor = Compositor::new(1, MODBUS_UNIT_ID);

    let read_function = ReadFunction(test_uint32().register);
    let ComposedMessage { content, .. } = compositor
        .compose_read(&read_function)
        .expect("Must-compose");

    assert_eq!(compositor.transaction_id.to_be_bytes(), content[0..2]); // TransactionID
    assert_eq!(
        [0x00, 0x00, 0x00, 0x06, 0x01, 0x03, 0xD7, 0x50, 0x00, 0x02],
        content[2..]
    );
}

#[test]
fn read_test_u16() {
    let mut compositor = Compositor::new(1, MODBUS_UNIT_ID);

    let read_function = ReadFunction(test_uint16().register);
    let ComposedMessage { content, .. } = compositor
        .compose_read(&read_function)
        .expect("Must-compose");

    assert_eq!(compositor.transaction_id.to_be_bytes(), content[0..2]); // TransactionID
    assert_eq!(
        [0x00, 0x00, 0x00, 0x06, 0x01, 0x03, 0xD7, 0x46, 0x00, 0x01],
        content[2..]
    );
}

#[test]
fn read_fio_zero() {
    let mut compositor = Compositor::new(1, MODBUS_UNIT_ID);

    let read_function = ReadFunction(fio0().register);
    let ComposedMessage { content, .. } = compositor
        .compose_read(&read_function)
        .expect("Must-compose");

    assert_eq!(compositor.transaction_id.to_be_bytes(), content[0..2]); // TransactionID
    assert_eq!(
        [0x00, 0x00, 0x00, 0x06, 0x01, 0x03, 0x07, 0xD0, 0x00, 0x01],
        content[2..]
    );
}

#[test]
fn read_one_feedback() {
    let mut compositor = Compositor::new(0, MODBUS_UNIT_ID);

    let functions = &[FeedbackFunction::ReadRegister(product_id().register)];

    let ComposedMessage { content, .. } = compositor
        .compose_feedback(functions)
        .expect("Must-compose");

    assert_eq!(compositor.transaction_id.to_be_bytes(), content[0..2]);
    assert_eq!(
        [0x00, 0x00, 0x00, 0x06, 0x01, 0x4C, 0x00, 0xEA, 0x60, 0x02],
        content[2..]
    )
}

#[test]
fn read_many_feedback() {
    let mut compositor = Compositor::new(0, MODBUS_UNIT_ID);

    let functions = &[
        FeedbackFunction::ReadRegister(ain55().register),
        FeedbackFunction::ReadRegister(ain56().register),
    ];

    let ComposedMessage { content, .. } = compositor
        .compose_feedback(functions)
        .expect("Must-compose");

    assert_eq!(compositor.transaction_id.to_be_bytes(), content[0..2]);
    assert_eq!([0x00, 0x00, 0x00, 0x0A, 0x01, 0x4C], content[2..8]);

    // AIN55 Frame
    assert_eq!([0x00, 0x00, 0x6E, 0x02], content[8..12]);

    // AIN56 Frame
    assert_eq!([0x00, 0x00, 0x70, 0x02], content[12..]);
}

#[test]
fn read_and_write_feedback() {
    let mut compositor = Compositor::new(0, MODBUS_UNIT_ID);

    let value_written: f32 = 15.0;

    let functions = &[
        FeedbackFunction::ReadRegister(ain55().register),
        FeedbackFunction::WriteRegister(
            ain56().register,
            LabJackDataValue::Float32(value_written.to_bits()),
        ),
    ];

    let ComposedMessage { content, .. } = compositor
        .compose_feedback(functions)
        .expect("Must-compose");

    assert_eq!(compositor.transaction_id.to_be_bytes(), content[0..2]);
    // Outer length counts the unit id, the function code, the two frame
    // headers and the four value bytes of the write frame.
    assert_eq!([0x00, 0x00, 0x00, 0x0E, 0x01, 0x4C], content[2..8]);

    // AIN55 Frame (Read-Frame)
    assert_eq!([0x00, 0x00, 0x6E, 0x02], content[8..12]);

    // AIN56 Frame (Write-Frame)
    assert_eq!([0x01, 0x00, 0x70, 0x02], content[12..16]);

    // Written AIN56 Value (15.0)
    assert_eq!(value_written.to_be_bytes(), content[16..])
}

#[test]
fn feedback_function() {
    let mut compositor = Compositor::new(0, 1);

    let read_product_id = FeedbackFunction::ReadRegister(product_id().register);
    let ComposedMessage { content, .. } = compositor
        .compose_feedback(&[read_product_id])
        .expect("Could not compose ModbusFeedback message");

    let as_be = compositor.transaction_id.to_be_bytes();

    // Transaction Identifier (arbitrary)
    assert_eq!(content[0..2], as_be[..]);
    assert_eq!(
        content[2..],
        vec![
            0x00, 0x00, // Protocol Identifier (Modbus TCP/IP)
            0x00, 0x06, // Length (6 bytes to follow)
            0x01, // Unit Identifier (slave address, usually 1)
            0x4c, // Function Code (Read Holding Registers)
            0x00, // Frame Type
            0xEA, 0x60, // Starting Register (60,000 = T7 Product ID)
            0x02, // Quantity of Registers (2)
        ]
    )
}
