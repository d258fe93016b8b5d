//! Each failure the library can surface, provoked by an input that causes
//! it.

use labjack::composite::{Compositor, Header};
use labjack::data_types::{LabJackDataType, LabJackDataValue};
use labjack::error::{Error, Reason};
use labjack::function::{FeedbackFunction, WriteFunction};
use labjack::register::Register;
use labjack::registers::fio0;
use labjack::validate::{get_reply_data, validate_response_code, validate_response_header};

#[test]
fn compose_write_rejects_type_mismatch() {
    let mut compositor = Compositor::new(0, 1);
    let r = compositor.compose_write(&WriteFunction(
        fio0().register,
        LabJackDataValue::Float32(0),
    ));
    assert!(matches!(
        r,
        Err(Error::InvalidData(Reason::RegisterMismatch))
    ));
    // The counter did not advance for the refused request.
    assert_eq!(compositor.transaction_id, 0);
}

#[test]
fn compose_feedback_rejects_mismatched_write_frame() {
    let mut compositor = Compositor::new(0, 1);
    let frames = [
        FeedbackFunction::ReadRegister(fio0().register),
        FeedbackFunction::WriteRegister(fio0().register, LabJackDataValue::Uint64(1)),
    ];
    let r = compositor.compose_feedback(&frames);
    assert!(matches!(
        r,
        Err(Error::InvalidData(Reason::RegisterMismatch))
    ));
}

#[test]
fn compose_feedback_rejects_oversize_bundle() {
    // Enough write frames that the outer length cannot fit its 16-bit
    // field.
    let reg = Register::new(0, LabJackDataType::Uint64);
    let frames: Vec<FeedbackFunction> = (0..5500)
        .map(|_| FeedbackFunction::WriteRegister(reg, LabJackDataValue::Uint64(0)))
        .collect();
    let mut compositor = Compositor::new(0, 1);
    let r = compositor.compose_feedback(&frames);
    assert!(matches!(
        r,
        Err(Error::InvalidData(Reason::SendBufferTooBig))
    ));
}

#[test]
fn header_rejects_mismatched_transaction_id() {
    let req = Header {
        transaction_id: 2,
        protocol_id: 0,
        length: 6,
        unit_id: 1,
    };
    let resp = Header {
        transaction_id: 3,
        protocol_id: 0,
        length: 5,
        unit_id: 1,
    };
    assert!(matches!(
        validate_response_header(&req, &resp),
        Err(Error::InvalidResponse)
    ));
}

#[test]
fn header_rejects_nonzero_protocol_id() {
    let req = Header {
        transaction_id: 2,
        protocol_id: 0,
        length: 6,
        unit_id: 1,
    };
    let resp = Header {
        transaction_id: 2,
        protocol_id: 1,
        length: 5,
        unit_id: 1,
    };
    assert!(matches!(
        validate_response_header(&req, &resp),
        Err(Error::InvalidResponse)
    ));
    // The matching header passes.
    let good = Header {
        transaction_id: 2,
        protocol_id: 0,
        length: 5,
        unit_id: 1,
    };
    assert!(validate_response_header(&req, &good).is_ok());
}

#[test]
fn unpack_rejects_short_buffer() {
    let r = Header::unpack(&[0x00, 0x01, 0x00]);
    assert!(matches!(r, Err(Error::InvalidResponse)));
}

#[test]
fn code_check_rejects_foreign_function() {
    let req = [0x00, 0x01, 0x00, 0x00, 0x00, 0x06, 0x01, 0x03, 0x00, 0x00, 0x00, 0x01];
    // A reply carrying a different function code.
    let res = [0x00, 0x01, 0x00, 0x00, 0x00, 0x05, 0x01, 0x10, 0x02, 0x00, 0x2A];
    assert!(matches!(
        validate_response_code(&req, &res),
        Err(Error::InvalidResponse)
    ));
    // An exception marker with a byte outside the exception table.
    let res = [0x00, 0x01, 0x00, 0x00, 0x00, 0x03, 0x01, 0x83, 0x0C];
    assert!(matches!(
        validate_response_code(&req, &res),
        Err(Error::InvalidResponse)
    ));
    // Too short to carry a function code at all.
    assert!(matches!(
        validate_response_code(&req, &res[..7]),
        Err(Error::InvalidResponse)
    ));
}

#[test]
fn reply_data_rejects_wrong_sizes() {
    // The announced byte count disagrees with what the request expects.
    let reply = [0x00, 0x01, 0x00, 0x00, 0x00, 0x05, 0x01, 0x03, 0x02, 0x00, 0x2A];
    assert!(matches!(
        get_reply_data(&reply, 4),
        Err(Error::InvalidData(Reason::UnexpectedReplySize))
    ));
    // The total frame length disagrees with the announced count.
    let truncated = [0x00, 0x01, 0x00, 0x00, 0x00, 0x05, 0x01, 0x03, 0x02, 0x00];
    assert!(matches!(
        get_reply_data(&truncated, 2),
        Err(Error::InvalidData(Reason::UnexpectedReplySize))
    ));
    // The well-sized reply hands back exactly the payload window.
    let data = get_reply_data(&reply, 2).expect("sized");
    assert_eq!(data, &[0x00, 0x2A]);
}
