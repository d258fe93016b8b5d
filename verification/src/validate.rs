//! Validation of Modbus TCP replies: the header discipline, the
//! function-code and exception discipline, payload extraction, and the
//! length-prefixed frame decoder of the stream reader.

use vstd::prelude::*;

use crate::composite::{
    spec_header_of, Header, MAX_DATA_LENGTH, MODBUS_HEADER_SIZE, MODBUS_PROTOCOL_TCP,
};
use crate::data_types::{spec_decode, LabJackDataType, LabJackDataValue};
use crate::error::{spec_exception_of_byte, Error, ExceptionCode, QueueError, Reason};

verus! {

/// The header discipline on a reply: the transaction id echoes the request's
/// and the protocol id is the Modbus TCP zero.
pub open spec fn spec_header_matches(req: Header, resp: Header) -> bool {
    req.transaction_id == resp.transaction_id && resp.protocol_id == MODBUS_PROTOCOL_TCP
}

/// Accepts a reply header exactly when it echoes the request's transaction id
/// and carries the zero protocol id of Modbus TCP; every other reply is
/// rejected and reaches no caller.
pub fn validate_response_header(req: &Header, resp: &Header) -> (r: Result<(), Error>)
    ensures
        r is Ok <==> spec_header_matches(*req, *resp),
        r matches Err(e) ==> e is InvalidResponse,
{
    if req.transaction_id != resp.transaction_id || resp.protocol_id != MODBUS_PROTOCOL_TCP {
        Err(Error::InvalidResponse)
    } else {
        Ok(())
    }
}

/// Header rejection: a reply whose transaction id differs from the
/// request's, or whose protocol id is not the Modbus TCP zero, never
/// satisfies the header discipline — the validator refuses it, so it reaches
/// no caller.
pub proof fn lemma_header_rejection(req: Header, resp: Header)
    requires
        req.transaction_id != resp.transaction_id || resp.protocol_id != MODBUS_PROTOCOL_TCP,
    ensures
        !spec_header_matches(req, resp),
{
}

/// Both byte strings reach past their function-code byte, and the reply's
/// code echoes the request's rather than flagging an exception.
pub open spec fn spec_code_matches(req: Seq<u8>, res: Seq<u8>) -> bool {
    &&& req.len() >= 8
    &&& res.len() >= 8
    &&& res[7] == req[7]
    &&& res[7] != (req[7] | 0x80)
}

/// The reply flags an exception (`function | 0x80`) and carries an exception
/// byte from the Modbus table.
pub open spec fn spec_code_is_exception(req: Seq<u8>, res: Seq<u8>) -> bool {
    &&& req.len() >= 8
    &&& res.len() >= 9
    &&& res[7] == (req[7] | 0x80)
    &&& spec_exception_of_byte(res[8]) is Some
}

/// Compares the function-code byte of a reply against the request's.
///
/// A reply whose code is the request's with the exception bit set is an
/// exception response: its next byte is interpreted through the Modbus
/// exception table and surfaced as [`Error::Exception`]. A reply whose code
/// neither echoes the request's nor flags an exception is invalid.
pub fn validate_response_code(req: &[u8], res: &[u8]) -> (r: Result<(), Error>)
    ensures
        r is Ok <==> spec_code_matches(req@, res@),
        spec_code_is_exception(req@, res@) ==> (r matches Err(Error::Exception(c)) && Some(c)
            == spec_exception_of_byte(res@[8])),
        r matches Err(e) ==> (e matches Error::Exception(c) ==> spec_code_is_exception(req@, res@)
            && Some(c) == spec_exception_of_byte(res@[8])),
        r matches Err(e) ==> (e is Exception || e is InvalidResponse),
{
    if req.len() < 8 || res.len() < 8 {
        return Err(Error::InvalidResponse);
    }
    let req_code = req[7];
    let res_code = res[7];
    if res_code == req_code | 0x80 {
        if res.len() < 9 {
            return Err(Error::InvalidResponse);
        }
        let exception = res[8];
        match ExceptionCode::from_u8(exception) {
            Some(code) => Err(Error::Exception(code)),
            None => Err(Error::InvalidResponse),
        }
    } else if res_code == req_code {
        Ok(())
    } else {
        Err(Error::InvalidResponse)
    }
}

/// The reply carries exactly the expected payload: its byte-count byte
/// announces `expected_bytes` and its total length is the header, the
/// function and count bytes, and the payload.
pub open spec fn spec_reply_sized(reply: Seq<u8>, expected_bytes: int) -> bool {
    &&& reply.len() >= 9
    &&& reply[8] == expected_bytes
    &&& reply.len() == MODBUS_HEADER_SIZE + expected_bytes + 2
}

/// Extracts the payload window of a read reply: everything after the header,
/// function code and byte count. Succeeds exactly when the announced byte
/// count and the total frame length both match `expected_bytes`.
pub fn get_reply_data<'a>(reply: &'a [u8], expected_bytes: usize) -> (r: Result<&'a [u8], Error>)
    ensures
        r is Ok <==> spec_reply_sized(reply@, expected_bytes as int),
        r matches Ok(data) ==> data@ == reply@.subrange(
            MODBUS_HEADER_SIZE + 2,
            reply@.len() as int,
        ) && data@.len() == expected_bytes,
        r matches Err(e) ==> e matches Error::InvalidData(Reason::UnexpectedReplySize),
{
    if reply.len() < 9 {
        return Err(Error::InvalidData(Reason::UnexpectedReplySize));
    }
    let given_response_length = reply[8] as usize;
    if expected_bytes > usize::MAX - MODBUS_HEADER_SIZE - 2 {
        return Err(Error::InvalidData(Reason::UnexpectedReplySize));
    }
    let reply_length_does_not_match = reply.len() != MODBUS_HEADER_SIZE + expected_bytes + 2;
    if given_response_length != expected_bytes || reply_length_does_not_match {
        return Err(Error::InvalidData(Reason::UnexpectedReplySize));
    }
    let (_, data) = reply.split_at(MODBUS_HEADER_SIZE + 2);
    Ok(data)
}

/// A read reply passes in full: it opens with a well-formed header that
/// echoes the request, its function code echoes the request's, its payload
/// is exactly the expected size, and that size is the wire size of the
/// requested data type.
pub open spec fn spec_read_reply_ok(
    request_header: Header,
    request: Seq<u8>,
    expected_bytes: int,
    data_type: LabJackDataType,
    reply: Seq<u8>,
) -> bool {
    &&& reply.len() >= MODBUS_HEADER_SIZE
    &&& spec_header_matches(request_header, spec_header_of(reply))
    &&& spec_code_matches(request, reply)
    &&& spec_reply_sized(reply, expected_bytes)
    &&& expected_bytes == 2 * data_type.spec_size()
}

/// Runs a read reply through the whole receive discipline: header echo,
/// function-code and exception check, payload sizing, and the decode of the
/// payload at the requested type. Succeeds exactly on replies that pass all
/// four, returning the decoded payload value; an exception response
/// surfaces as [`Error::Exception`] with the code the device sent.
pub fn decode_read_reply(
    request_header: &Header,
    request: &[u8],
    expected_bytes: usize,
    data_type: LabJackDataType,
    reply: &[u8],
) -> (r: Result<LabJackDataValue, Error>)
    ensures
        r is Ok <==> spec_read_reply_ok(
            *request_header,
            request@,
            expected_bytes as int,
            data_type,
            reply@,
        ),
        r matches Ok(v) ==> v == spec_decode(
            data_type,
            reply@.subrange(MODBUS_HEADER_SIZE + 2, reply@.len() as int),
        ),
        reply@.len() >= MODBUS_HEADER_SIZE && spec_header_matches(
            *request_header,
            spec_header_of(reply@),
        ) && spec_code_is_exception(request@, reply@) ==> (r matches Err(Error::Exception(c))
            && Some(c) == spec_exception_of_byte(reply@[8])),
{
    let response_header = match Header::unpack(reply) {
        Ok(h) => h,
        Err(e) => {
            return Err(e);
        },
    };
    if let Err(e) = validate_response_header(request_header, &response_header) {
        return Err(e);
    }
    if let Err(e) = validate_response_code(request, reply) {
        return Err(e);
    }
    let data = match get_reply_data(reply, expected_bytes) {
        Ok(d) => d,
        Err(e) => {
            return Err(e);
        },
    };
    LabJackDataValue::from_bytes(data_type, data)
}

/// One frame cut from the reader's byte stream: the header it opens with and
/// the frame's full bytes, header included.
#[derive(Debug)]
pub struct DecodedFrame {
    pub header: Header,
    pub bytes: Vec<u8>,
}

/// How many leading bytes of the stream the frame opened by `h` occupies:
/// the six bytes before the unit id, plus the `length` bytes that follow
/// them.
pub open spec fn spec_frame_len(h: Header) -> int {
    MODBUS_HEADER_SIZE + h.length - 1
}

/// Cuts the next length-prefixed frame off the front of the stream buffer.
///
/// With fewer than the seven header bytes, or fewer than the full frame the
/// header announces, no frame is ready yet (`Ok(None)`), and the buffer is
/// left for more bytes to arrive. A header announcing more than
/// [`MAX_DATA_LENGTH`] bytes is rejected before any of them are read, and
/// reaches no caller. The caller advances its buffer by the returned frame's
/// byte length.
pub fn decode_frame(src: &[u8]) -> (r: Result<Option<DecodedFrame>, Error>)
    ensures
        src@.len() < MODBUS_HEADER_SIZE ==> r matches Ok(None),
        src@.len() >= MODBUS_HEADER_SIZE ==> {
            let h = spec_header_of(src@);
            if h.length > MAX_DATA_LENGTH {
                r matches Err(e) && e matches Error::Queue(QueueError::FrameSizeTooLarge)
            } else if src@.len() < spec_frame_len(h) {
                r matches Ok(None)
            } else {
                r matches Ok(Some(f)) && f.header == h && f.bytes@ == src@.subrange(
                    0,
                    spec_frame_len(h),
                )
            }
        },
{
    if src.len() < MODBUS_HEADER_SIZE {
        return Ok(None);
    }
    let header = match Header::unpack(src) {
        Ok(h) => h,
        Err(e) => {
            return Err(e);
        },
    };
    if header.length as usize > MAX_DATA_LENGTH {
        return Err(Error::Queue(QueueError::FrameSizeTooLarge));
    }
    let expected_size: usize = MODBUS_HEADER_SIZE + header.length as usize - 1;
    if src.len() < expected_size {
        return Ok(None);
    }
    let mut bytes: Vec<u8> = Vec::new();
    let mut i: usize = 0;
    while i < expected_size
        invariant
            i <= expected_size,
            expected_size <= src@.len(),
            bytes@ == src@.subrange(0, i as int),
        decreases expected_size - i,
    {
        bytes.push(src[i]);
        i = i + 1;
        proof {
            assert(bytes@ =~= src@.subrange(0, i as int));
        }
    }
    Ok(Some(DecodedFrame { header, bytes }))
}

} // verus!
