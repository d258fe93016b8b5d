//! The data-type matrix of the Modbus-visible scalar types, together with
//! their big-endian codecs: every register value travels as `2 * size words`
//! bytes, most significant byte first.

use vstd::prelude::*;

use crate::error::{Error, Reason};

verus! {

/// The big-endian bytes of a 16-bit value.
pub open spec fn spec_u16_be(x: u16) -> Seq<u8> {
    seq![(x >> 8) as u8, x as u8]
}

/// The big-endian bytes of a 32-bit value.
pub open spec fn spec_u32_be(x: u32) -> Seq<u8> {
    seq![(x >> 24) as u8, (x >> 16) as u8, (x >> 8) as u8, x as u8]
}

/// The big-endian bytes of a 64-bit value.
pub open spec fn spec_u64_be(x: u64) -> Seq<u8> {
    seq![
        (x >> 56) as u8,
        (x >> 48) as u8,
        (x >> 40) as u8,
        (x >> 32) as u8,
        (x >> 24) as u8,
        (x >> 16) as u8,
        (x >> 8) as u8,
        x as u8,
    ]
}

/// The 16-bit value whose big-endian bytes are `b0 b1`.
pub open spec fn spec_combine16(b0: u8, b1: u8) -> u16 {
    ((b0 as u16) << 8) | (b1 as u16)
}

/// The 32-bit value whose big-endian bytes are `b0 b1 b2 b3`.
pub open spec fn spec_combine32(b0: u8, b1: u8, b2: u8, b3: u8) -> u32 {
    ((b0 as u32) << 24) | ((b1 as u32) << 16) | ((b2 as u32) << 8) | (b3 as u32)
}

/// The 64-bit value whose big-endian bytes are `b0 .. b7`.
pub open spec fn spec_combine64(
    b0: u8,
    b1: u8,
    b2: u8,
    b3: u8,
    b4: u8,
    b5: u8,
    b6: u8,
    b7: u8,
) -> u64 {
    ((b0 as u64) << 56) | ((b1 as u64) << 48) | ((b2 as u64) << 40) | ((b3 as u64) << 32) | ((
    b4 as u64) << 24) | ((b5 as u64) << 16) | ((b6 as u64) << 8) | (b7 as u64)
}

/// The Modbus-visible scalar data types of LabJack registers.
///
/// `Byte` covers the catalog's byte-wise buffers (and its string registers,
/// which are byte buffers on the wire); like `Uint16` it occupies one full
/// 16-bit Modbus word.
#[derive(Debug, Clone, Copy, PartialEq, Eq, Structural)]
pub enum LabJackDataType {
    Uint16,
    Uint32,
    Int32,
    Float32,
    Uint64,
    Byte,
}

impl LabJackDataType {
    /// The width of one value of this type, in 16-bit Modbus words.
    pub open spec fn spec_size(self) -> u16 {
        match self {
            LabJackDataType::Byte | LabJackDataType::Uint16 => 1,
            LabJackDataType::Uint64 => 4,
            _ => 2,
        }
    }

    /// Determines the LabJack size representation over Modbus: the number of
    /// 16-bit registers one value of this type spans. A `Uint16` FIO register
    /// spans one word; the 32-bit types span two; `Uint64` spans four.
    pub fn size(&self) -> (r: u16)
        ensures
            r == self.spec_size(),
            1 <= r <= 4,
    {
        match self {
            LabJackDataType::Byte | LabJackDataType::Uint16 => 1,
            LabJackDataType::Uint64 => 4,
            _ => 2,
        }
    }

    /// The deterministic default value of this type.
    pub open spec fn spec_floating(self) -> LabJackDataValue {
        match self {
            LabJackDataType::Uint16 => LabJackDataValue::Uint16(0),
            LabJackDataType::Uint32 => LabJackDataValue::Uint32(0),
            LabJackDataType::Int32 => LabJackDataValue::Int32(0),
            LabJackDataType::Float32 => LabJackDataValue::Float32(0),
            LabJackDataType::Uint64 => LabJackDataValue::Uint64(0),
            LabJackDataType::Byte => LabJackDataValue::Byte(0),
        }
    }

    /// The zero value of this type: what an emulated address reads as before
    /// anything was written to it.
    pub fn floating(&self) -> (r: LabJackDataValue)
        ensures
            r == self.spec_floating(),
            r.spec_type() == *self,
    {
        match self {
            LabJackDataType::Uint16 => LabJackDataValue::Uint16(0),
            LabJackDataType::Uint32 => LabJackDataValue::Uint32(0),
            LabJackDataType::Int32 => LabJackDataValue::Int32(0),
            LabJackDataType::Float32 => LabJackDataValue::Float32(0),
            LabJackDataType::Uint64 => LabJackDataValue::Uint64(0),
            LabJackDataType::Byte => LabJackDataValue::Byte(0),
        }
    }
}

/// One value of a Modbus-visible scalar type, one variant per
/// [`LabJackDataType`].
///
/// `Float32` carries the IEEE-754 bit pattern of the 32-bit float, which is
/// exactly what travels on the wire; converting the bits to and from a native
/// float is left to the unverified edge of an application.
#[derive(Debug, Clone, Copy, PartialEq, Eq, Structural)]
pub enum LabJackDataValue {
    Uint16(u16),
    Uint32(u32),
    Uint64(u64),
    Int32(i32),
    Float32(u32),
    Byte(u8),
}

/// The big-endian serialization of a value: `2 * size` words of bytes.
///
/// A `Byte` value is widened to its full Modbus word, so that every value
/// occupies exactly the wire size of its type.
pub open spec fn spec_value_bytes(v: LabJackDataValue) -> Seq<u8> {
    match v {
        LabJackDataValue::Uint16(x) => spec_u16_be(x),
        LabJackDataValue::Uint32(x) => spec_u32_be(x),
        LabJackDataValue::Uint64(x) => spec_u64_be(x),
        LabJackDataValue::Int32(x) => spec_u32_be(x as u32),
        LabJackDataValue::Float32(bits) => spec_u32_be(bits),
        LabJackDataValue::Byte(x) => spec_u16_be(x as u16),
    }
}

/// The value of type `dt` whose big-endian serialization is `b`; meaningful
/// when `b` has exactly the wire size of `dt`.
pub open spec fn spec_decode(dt: LabJackDataType, b: Seq<u8>) -> LabJackDataValue
    recommends
        b.len() == 2 * dt.spec_size(),
{
    match dt {
        LabJackDataType::Uint16 => LabJackDataValue::Uint16(spec_combine16(b[0], b[1])),
        LabJackDataType::Uint32 => LabJackDataValue::Uint32(
            spec_combine32(b[0], b[1], b[2], b[3]),
        ),
        LabJackDataType::Int32 => LabJackDataValue::Int32(
            spec_combine32(b[0], b[1], b[2], b[3]) as i32,
        ),
        LabJackDataType::Float32 => LabJackDataValue::Float32(
            spec_combine32(b[0], b[1], b[2], b[3]),
        ),
        LabJackDataType::Uint64 => LabJackDataValue::Uint64(
            spec_combine64(b[0], b[1], b[2], b[3], b[4], b[5], b[6], b[7]),
        ),
        LabJackDataType::Byte => LabJackDataValue::Byte(b[1]),
    }
}

impl LabJackDataValue {
    /// The data type this value belongs to.
    pub open spec fn spec_type(self) -> LabJackDataType {
        match self {
            LabJackDataValue::Uint16(_) => LabJackDataType::Uint16,
            LabJackDataValue::Uint32(_) => LabJackDataType::Uint32,
            LabJackDataValue::Uint64(_) => LabJackDataType::Uint64,
            LabJackDataValue::Int32(_) => LabJackDataType::Int32,
            LabJackDataValue::Float32(_) => LabJackDataType::Float32,
            LabJackDataValue::Byte(_) => LabJackDataType::Byte,
        }
    }

    /// The data type this value belongs to.
    pub fn data_type(&self) -> (r: LabJackDataType)
        ensures
            r == self.spec_type(),
    {
        match self {
            LabJackDataValue::Uint16(_) => LabJackDataType::Uint16,
            LabJackDataValue::Uint32(_) => LabJackDataType::Uint32,
            LabJackDataValue::Uint64(_) => LabJackDataType::Uint64,
            LabJackDataValue::Int32(_) => LabJackDataType::Int32,
            LabJackDataValue::Float32(_) => LabJackDataType::Float32,
            LabJackDataValue::Byte(_) => LabJackDataType::Byte,
        }
    }

    /// The big-endian serialization of this value. Its length is always
    /// `2 * size` for the value's type: the size law of the codec.
    pub fn bytes(&self) -> (r: Vec<u8>)
        ensures
            r@ == spec_value_bytes(*self),
            r@.len() == 2 * self.spec_type().spec_size(),
    {
        let mut out: Vec<u8> = Vec::new();
        match self {
            LabJackDataValue::Uint16(x) => {
                push_u16_be(&mut out, *x);
            },
            LabJackDataValue::Uint32(x) => {
                push_u32_be(&mut out, *x);
            },
            LabJackDataValue::Uint64(x) => {
                let x = *x;
                out.push(#[verifier::truncate] ((x >> 56) as u8));
                out.push(#[verifier::truncate] ((x >> 48) as u8));
                out.push(#[verifier::truncate] ((x >> 40) as u8));
                out.push(#[verifier::truncate] ((x >> 32) as u8));
                out.push(#[verifier::truncate] ((x >> 24) as u8));
                out.push(#[verifier::truncate] ((x >> 16) as u8));
                out.push(#[verifier::truncate] ((x >> 8) as u8));
                out.push(#[verifier::truncate] (x as u8));
            },
            LabJackDataValue::Int32(x) => {
                push_u32_be(&mut out, #[verifier::truncate] (*x as u32));
            },
            LabJackDataValue::Float32(bits) => {
                push_u32_be(&mut out, *bits);
            },
            LabJackDataValue::Byte(x) => {
                push_u16_be(&mut out, *x as u16);
            },
        }
        proof {
            assert(out@ =~= spec_value_bytes(*self));
        }
        out
    }

    /// Decodes a big-endian serialization into a value of type `data_type`.
    ///
    /// Succeeds exactly when `bytes` has the wire size of `data_type`
    /// (`2 * size` words of bytes); any other length is a decoding error.
    pub fn from_bytes(data_type: LabJackDataType, bytes: &[u8]) -> (r: Result<
        LabJackDataValue,
        Error,
    >)
        ensures
            r is Ok <==> bytes@.len() == 2 * data_type.spec_size(),
            r matches Ok(v) ==> v == spec_decode(data_type, bytes@) && v.spec_type() == data_type,
            r matches Err(e) ==> e matches Error::InvalidData(Reason::DecodingError),
    {
        let expected: usize = 2 * data_type.size() as usize;
        if bytes.len() != expected {
            return Err(Error::InvalidData(Reason::DecodingError));
        }
        match data_type {
            LabJackDataType::Uint16 => Ok(
                LabJackDataValue::Uint16(combine16(bytes[0], bytes[1])),
            ),
            LabJackDataType::Uint32 => Ok(
                LabJackDataValue::Uint32(combine32(bytes[0], bytes[1], bytes[2], bytes[3])),
            ),
            LabJackDataType::Int32 => Ok(
                LabJackDataValue::Int32(
                    #[verifier::truncate] (combine32(bytes[0], bytes[1], bytes[2], bytes[3])
                        as i32),
                ),
            ),
            LabJackDataType::Float32 => Ok(
                LabJackDataValue::Float32(combine32(bytes[0], bytes[1], bytes[2], bytes[3])),
            ),
            LabJackDataType::Uint64 => Ok(
                LabJackDataValue::Uint64(
                    combine64(
                        bytes[0],
                        bytes[1],
                        bytes[2],
                        bytes[3],
                        bytes[4],
                        bytes[5],
                        bytes[6],
                        bytes[7],
                    ),
                ),
            ),
            LabJackDataType::Byte => Ok(LabJackDataValue::Byte(bytes[1])),
        }
    }
}

/// Appends the two big-endian bytes of `x`.
pub fn push_u16_be(out: &mut Vec<u8>, x: u16)
    ensures
        final(out)@ == old(out)@ + spec_u16_be(x),
{
    out.push((x >> 8) as u8);
    out.push(#[verifier::truncate] (x as u8));
    proof {
        assert(out@ =~= old(out)@ + spec_u16_be(x));
    }
}

/// Appends the four big-endian bytes of `x`.
pub fn push_u32_be(out: &mut Vec<u8>, x: u32)
    ensures
        final(out)@ == old(out)@ + spec_u32_be(x),
{
    out.push((x >> 24) as u8);
    out.push(#[verifier::truncate] ((x >> 16) as u8));
    out.push(#[verifier::truncate] ((x >> 8) as u8));
    out.push(#[verifier::truncate] (x as u8));
    proof {
        assert(out@ =~= old(out)@ + spec_u32_be(x));
    }
}

/// The 16-bit value whose big-endian bytes are `b0 b1`.
pub fn combine16(b0: u8, b1: u8) -> (r: u16)
    ensures
        r == spec_combine16(b0, b1),
{
    ((b0 as u16) << 8) | (b1 as u16)
}

/// The 32-bit value whose big-endian bytes are `b0 b1 b2 b3`.
pub fn combine32(b0: u8, b1: u8, b2: u8, b3: u8) -> (r: u32)
    ensures
        r == spec_combine32(b0, b1, b2, b3),
{
    ((b0 as u32) << 24) | ((b1 as u32) << 16) | ((b2 as u32) << 8) | (b3 as u32)
}

/// The 64-bit value whose big-endian bytes are `b0 .. b7`.
pub fn combine64(b0: u8, b1: u8, b2: u8, b3: u8, b4: u8, b5: u8, b6: u8, b7: u8) -> (r: u64)
    ensures
        r == spec_combine64(b0, b1, b2, b3, b4, b5, b6, b7),
{
    ((b0 as u64) << 56) | ((b1 as u64) << 48) | ((b2 as u64) << 40) | ((b3 as u64) << 32) | ((
    b4 as u64) << 24) | ((b5 as u64) << 16) | ((b6 as u64) << 8) | (b7 as u64)
}

/// The codec round-trip law: decoding the serialization of any value, at the
/// value's own type, yields the value back; and the serialization always has
/// exactly the wire size of the type.
pub proof fn lemma_codec_round_trip(v: LabJackDataValue)
    ensures
        spec_value_bytes(v).len() == 2 * v.spec_type().spec_size(),
        spec_decode(v.spec_type(), spec_value_bytes(v)) == v,
{
    match v {
        LabJackDataValue::Uint16(x) => {
            assert((((((x >> 8) as u8) as u16) << 8) | ((x as u8) as u16)) == x) by (bit_vector);
        },
        LabJackDataValue::Uint32(x) => {
            lemma_combine32_of_bytes(x);
        },
        LabJackDataValue::Uint64(x) => {
            assert(((((x >> 56) as u8) as u64) << 56) | ((((x >> 48) as u8) as u64) << 48) | ((((x
                >> 40) as u8) as u64) << 40) | ((((x >> 32) as u8) as u64) << 32) | ((((x
                >> 24) as u8) as u64) << 24) | ((((x >> 16) as u8) as u64) << 16) | ((((x
                >> 8) as u8) as u64) << 8) | ((x as u8) as u64) == x) by (bit_vector);
        },
        LabJackDataValue::Int32(x) => {
            lemma_combine32_of_bytes(x as u32);
            assert(((x as u32) as i32) == x) by (bit_vector);
        },
        LabJackDataValue::Float32(bits) => {
            lemma_combine32_of_bytes(bits);
        },
        LabJackDataValue::Byte(x) => {
            assert(((x as u16) as u8) == x);
        },
    }
}

/// Something that can hand out a decoded value for a requested data type.
pub trait Decoder {
    /// What decoding as `data_type` returns.
    spec fn spec_decoded(&self, data_type: LabJackDataType) -> Result<LabJackDataValue, Error>;

    /// Decodes this decoder's contents as a value of `data_type`.
    fn decode_as(&self, data_type: LabJackDataType) -> (r: Result<LabJackDataValue, Error>)
        ensures
            r == self.spec_decoded(data_type),
    ;
}

/// Decodes values out of a window of reply payload bytes.
pub struct StandardDecoder<'a> {
    pub bytes: &'a [u8],
}

impl<'a> Decoder for StandardDecoder<'a> {
    open spec fn spec_decoded(&self, data_type: LabJackDataType) -> Result<
        LabJackDataValue,
        Error,
    > {
        if self.bytes@.len() == 2 * data_type.spec_size() {
            Ok(spec_decode(data_type, self.bytes@))
        } else {
            Err(Error::InvalidData(Reason::DecodingError))
        }
    }

    fn decode_as(&self, data_type: LabJackDataType) -> (r: Result<LabJackDataValue, Error>) {
        LabJackDataValue::from_bytes(data_type, self.bytes)
    }
}

/// Hands back an already-decoded value, whatever type is asked for: the
/// decoder of the emulated transport.
pub struct EmulatedDecoder {
    pub value: LabJackDataValue,
}

impl Decoder for EmulatedDecoder {
    open spec fn spec_decoded(&self, data_type: LabJackDataType) -> Result<
        LabJackDataValue,
        Error,
    > {
        Ok(self.value)
    }

    fn decode_as(&self, data_type: LabJackDataType) -> (r: Result<LabJackDataValue, Error>) {
        Ok(self.value)
    }
}

/// Recombining the four big-endian bytes of a 32-bit value yields the value.
proof fn lemma_combine32_of_bytes(x: u32)
    ensures
        spec_combine32((x >> 24) as u8, (x >> 16) as u8, (x >> 8) as u8, x as u8) == x,
{
    assert(((((x >> 24) as u8) as u32) << 24) | ((((x >> 16) as u8) as u32) << 16) | ((((x
        >> 8) as u8) as u32) << 8) | ((x as u8) as u32) == x) by (bit_vector);
}

} // verus!
