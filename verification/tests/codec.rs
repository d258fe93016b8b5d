//! The value codec: round trips, the size law, and decoding failures.

use labjack::data_types::{
    Decoder, EmulatedDecoder, LabJackDataType, LabJackDataValue, StandardDecoder,
};
use labjack::error::{Error, ExceptionCode, Reason};

fn assert_round_trip(v: LabJackDataValue) {
    let bytes = v.bytes();
    assert_eq!(
        bytes.len(),
        2 * v.data_type().size() as usize,
        "size law for {:?}",
        v
    );
    let back = LabJackDataValue::from_bytes(v.data_type(), &bytes).expect("must decode");
    assert_eq!(back, v, "round trip for {:?}", v);
}

#[test]
fn codec_round_trip_every_variant() {
    assert_round_trip(LabJackDataValue::Uint16(0xABCD));
    assert_round_trip(LabJackDataValue::Uint16(0));
    assert_round_trip(LabJackDataValue::Uint32(0xC0BCCCCD));
    assert_round_trip(LabJackDataValue::Uint64(0x0123456789ABCDEF));
    assert_round_trip(LabJackDataValue::Int32(-456));
    assert_round_trip(LabJackDataValue::Int32(i32::MIN));
    assert_round_trip(LabJackDataValue::Float32(3.3f32.to_bits()));
    assert_round_trip(LabJackDataValue::Byte(0x7F));
}

#[test]
fn codec_exact_bytes() {
    assert_eq!(LabJackDataValue::Uint16(42).bytes(), vec![0x00, 0x2A]);
    assert_eq!(
        LabJackDataValue::Float32(3.3f32.to_bits()).bytes(),
        vec![0x40, 0x53, 0x33, 0x33]
    );
    assert_eq!(
        LabJackDataValue::Uint64(1).bytes(),
        vec![0, 0, 0, 0, 0, 0, 0, 1]
    );
    // A byte value occupies its full Modbus word.
    assert_eq!(LabJackDataValue::Byte(0xAB).bytes(), vec![0x00, 0xAB]);
}

#[test]
fn decode_rejects_wrong_length() {
    let r = LabJackDataValue::from_bytes(LabJackDataType::Uint32, &[0x00, 0x2A]);
    assert!(matches!(
        r,
        Err(Error::InvalidData(Reason::DecodingError))
    ));
    let r = LabJackDataValue::from_bytes(LabJackDataType::Uint16, &[0x00, 0x2A, 0x00]);
    assert!(matches!(
        r,
        Err(Error::InvalidData(Reason::DecodingError))
    ));
    let r = LabJackDataValue::from_bytes(LabJackDataType::Uint64, &[]);
    assert!(matches!(
        r,
        Err(Error::InvalidData(Reason::DecodingError))
    ));
}

#[test]
fn decode_reads_big_endian() {
    let v = LabJackDataValue::from_bytes(LabJackDataType::Uint16, &[0x00, 0x2A]).unwrap();
    assert_eq!(v, LabJackDataValue::Uint16(42));
    let v = LabJackDataValue::from_bytes(LabJackDataType::Uint32, &[0xC0, 0xBC, 0xCC, 0xCD])
        .unwrap();
    assert_eq!(v, LabJackDataValue::Uint32(0xC0BCCCCD));
    let v = LabJackDataValue::from_bytes(LabJackDataType::Int32, &[0xFF, 0xFF, 0xFE, 0x38])
        .unwrap();
    assert_eq!(v, LabJackDataValue::Int32(-456));
}

#[test]
fn floating_defaults_are_zero() {
    assert_eq!(
        LabJackDataType::Uint16.floating(),
        LabJackDataValue::Uint16(0)
    );
    assert_eq!(
        LabJackDataType::Float32.floating(),
        LabJackDataValue::Float32(0)
    );
    assert_eq!(f32::from_bits(0), 0.0f32);
    assert_eq!(
        LabJackDataType::Uint64.floating(),
        LabJackDataValue::Uint64(0)
    );
}

#[test]
fn exception_code_table() {
    for byte in 0x01u8..=0x0B {
        let code = ExceptionCode::from_u8(byte).expect("table covers 0x01..=0x0b");
        assert_eq!(code.code(), byte);
    }
    assert_eq!(ExceptionCode::from_u8(0x00), None);
    assert_eq!(ExceptionCode::from_u8(0x0C), None);
    assert_eq!(ExceptionCode::from_u8(0xFF), None);
    assert_eq!(
        ExceptionCode::from_u8(0x02),
        Some(ExceptionCode::IllegalDataAddress)
    );
}

#[test]
fn standard_decoder_reads_payload_window() {
    let bytes = [0xC0u8, 0xBC, 0xCC, 0xCD];
    let decoder = StandardDecoder { bytes: &bytes };
    let value = decoder.decode_as(LabJackDataType::Uint32).expect("decodes");
    assert_eq!(value, LabJackDataValue::Uint32(0xC0BCCCCD));
    let r = decoder.decode_as(LabJackDataType::Uint16);
    assert!(matches!(r, Err(Error::InvalidData(Reason::DecodingError))));
}

#[test]
fn emulated_decoder_hands_back_its_value() {
    let decoder = EmulatedDecoder {
        value: LabJackDataValue::Int32(-7),
    };
    let value = decoder.decode_as(LabJackDataType::Int32).expect("never fails");
    assert_eq!(value, LabJackDataValue::Int32(-7));
}
