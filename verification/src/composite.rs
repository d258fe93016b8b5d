//! Composition of Modbus TCP request messages: the MBAP header, the Read and
//! Write requests, and the vendor-specific Feedback (MBFB) multi-frame
//! request, each stated byte for byte.
//!
//! The MBAP `length` field counts every byte after itself through the end of
//! the PDU: the unit id, the function code, and the payload.

use vstd::prelude::*;

use crate::data_types::{push_u16_be, spec_u16_be, spec_value_bytes, combine16, spec_combine16};
use crate::error::{Error, Reason};
use crate::function::{FeedbackFunction, Function, ReadFunction, WriteFunction};

verus! {

/// As referenced in the LabJack manual, the UnitID field is not used (as
/// bridging is not used), and the suggested default is 1.
pub const MODBUS_UNIT_ID: u8 = 1;

/// The size of the MBAP header in bytes: transaction id, protocol id, length,
/// and unit id.
pub const MODBUS_HEADER_SIZE: usize = 7;

/// The maximum size of one Modbus packet.
pub const MODBUS_MAX_PACKET_SIZE: usize = 260;

/// The protocol identifier of Modbus TCP: always zero.
pub const MODBUS_PROTOCOL_TCP: u16 = 0x0000;

/// The default TCP port for Modbus communication with a LabJack over
/// Ethernet.
pub const MODBUS_TCP_DEFAULT_PORT: u16 = 502;

/// The maximum amount of data that can travel in one Ethernet frame to the
/// device; a reply announcing more is rejected before it is read.
pub const MAX_DATA_LENGTH: usize = 1040;

/// The header on a given Modbus TCP message: how large the payload is, and
/// the corresponding transaction, protocol and unit ids.
#[derive(Debug, Clone, Copy, PartialEq, Eq, Structural)]
pub struct Header {
    pub transaction_id: u16,
    pub protocol_id: u16,
    pub length: u16,
    pub unit_id: u8,
}

/// The seven bytes of an MBAP header, in wire order.
pub open spec fn spec_header_bytes(h: Header) -> Seq<u8> {
    spec_u16_be(h.transaction_id) + spec_u16_be(h.protocol_id) + spec_u16_be(h.length) + seq![
        h.unit_id,
    ]
}

/// The header whose seven leading wire bytes are `s`; meaningful when `s`
/// holds at least [`MODBUS_HEADER_SIZE`] bytes.
pub open spec fn spec_header_of(s: Seq<u8>) -> Header
    recommends
        s.len() >= 7,
{
    Header {
        transaction_id: spec_combine16(s[0], s[1]),
        protocol_id: spec_combine16(s[2], s[3]),
        length: spec_combine16(s[4], s[5]),
        unit_id: s[6],
    }
}

impl Header {
    /// Serializes the header into its seven wire bytes.
    pub fn pack(&self) -> (r: Result<Vec<u8>, Error>)
        ensures
            r matches Ok(b) && b@ == spec_header_bytes(*self),
    {
        let mut buff: Vec<u8> = Vec::new();
        push_u16_be(&mut buff, self.transaction_id);
        push_u16_be(&mut buff, self.protocol_id);
        push_u16_be(&mut buff, self.length);
        buff.push(self.unit_id);
        proof {
            assert(buff@ =~= spec_header_bytes(*self));
        }
        Ok(buff)
    }

    /// Reads a header back from the leading bytes of a buffer. Succeeds
    /// exactly when the buffer holds at least the seven header bytes.
    pub fn unpack(buff: &[u8]) -> (r: Result<Header, Error>)
        ensures
            r is Ok <==> buff@.len() >= MODBUS_HEADER_SIZE,
            r matches Ok(h) ==> h == spec_header_of(buff@),
            r matches Err(e) ==> e is InvalidResponse,
    {
        if buff.len() < MODBUS_HEADER_SIZE {
            return Err(Error::InvalidResponse);
        }
        Ok(
            Header {
                transaction_id: combine16(buff[0], buff[1]),
                protocol_id: combine16(buff[2], buff[3]),
                length: combine16(buff[4], buff[5]),
                unit_id: buff[6],
            },
        )
    }
}

/// The transaction id that follows `t`: a wrapping increment by one.
pub open spec fn spec_next_tid(t: u16) -> u16 {
    if t == 0xffff {
        0
    } else {
        (t + 1) as u16
    }
}

/// A composed request: the full wire bytes, the header they begin with, and
/// how many payload bytes the matching reply is expected to carry.
#[derive(Debug)]
pub struct ComposedMessage {
    pub content: Vec<u8>,
    pub header: Header,
    pub expected_bytes: usize,
}

/// The wire bytes of a Read request: header with `length == 6`, function code
/// `0x03`, starting address, and word count.
pub open spec fn spec_read_request(tid: u16, unit_id: u8, addr: u16, words: u16) -> Seq<u8> {
    spec_header_bytes(Header { transaction_id: tid, protocol_id: 0, length: 6, unit_id })
        + seq![0x03u8] + spec_u16_be(addr) + spec_u16_be(words)
}

/// The wire bytes of a Write request: header with `length == 7 + 2 * words`,
/// function code `0x10`, starting address, word count, byte count, and the
/// big-endian value bytes.
pub open spec fn spec_write_request(
    tid: u16,
    unit_id: u8,
    addr: u16,
    words: u16,
    value_bytes: Seq<u8>,
) -> Seq<u8> {
    spec_header_bytes(
        Header {
            transaction_id: tid,
            protocol_id: 0,
            length: (7 + 2 * words) as u16,
            unit_id,
        },
    ) + seq![0x10u8] + spec_u16_be(addr) + spec_u16_be(words) + seq![(2 * words) as u8]
        + value_bytes
}

/// The wire size of one Feedback sub-frame: four bytes of frame header, plus
/// the value bytes for a write frame.
pub open spec fn spec_frame_size(f: FeedbackFunction) -> int {
    match f {
        FeedbackFunction::ReadRegister(_) => 4,
        FeedbackFunction::WriteRegister(reg, _) => 4 + 2 * reg.data_type.spec_size(),
    }
}

/// The summed wire size of a sequence of Feedback sub-frames.
pub open spec fn spec_frames_size(s: Seq<FeedbackFunction>) -> int
    decreases s.len(),
{
    if s.len() == 0 {
        0
    } else {
        spec_frames_size(s.drop_last()) + spec_frame_size(s.last())
    }
}

/// The payload bytes a Feedback reply returns for these sub-frames: each read
/// frame returns the register's full width, write frames return nothing.
pub open spec fn spec_read_return_size(s: Seq<FeedbackFunction>) -> int
    decreases s.len(),
{
    if s.len() == 0 {
        0
    } else {
        spec_read_return_size(s.drop_last()) + (match s.last() {
            FeedbackFunction::ReadRegister(reg) => 2 * reg.data_type.spec_size() as int,
            FeedbackFunction::WriteRegister(..) => 0,
        })
    }
}

/// The wire bytes of one Feedback sub-frame: sub-code, address, word count,
/// and for a write frame the value bytes.
pub open spec fn spec_frame_bytes(f: FeedbackFunction) -> Seq<u8> {
    match f {
        FeedbackFunction::ReadRegister(reg) => seq![0x00u8] + spec_u16_be(reg.address) + seq![
            reg.data_type.spec_size() as u8,
        ],
        FeedbackFunction::WriteRegister(reg, v) => seq![0x01u8] + spec_u16_be(reg.address) + seq![
            reg.data_type.spec_size() as u8,
        ] + spec_value_bytes(v),
    }
}

/// The concatenated wire bytes of a sequence of Feedback sub-frames.
pub open spec fn spec_frames_bytes(s: Seq<FeedbackFunction>) -> Seq<u8>
    decreases s.len(),
{
    if s.len() == 0 {
        Seq::empty()
    } else {
        spec_frames_bytes(s.drop_last()) + spec_frame_bytes(s.last())
    }
}

/// Every write frame carries a value of its register's own type.
pub open spec fn spec_frames_writes_ok(s: Seq<FeedbackFunction>) -> bool {
    forall|i: int|
        0 <= i < s.len() ==> (#[trigger] s[i] matches FeedbackFunction::WriteRegister(reg, v)
            ==> v.spec_type() == reg.data_type)
}

/// The wire bytes of a Feedback request: header with `length` counting the
/// unit id, the function code `0x4C`, and every sub-frame, followed by
/// exactly those bytes.
pub open spec fn spec_feedback_request(tid: u16, unit_id: u8, s: Seq<FeedbackFunction>) -> Seq<
    u8,
> {
    spec_header_bytes(
        Header {
            transaction_id: tid,
            protocol_id: 0,
            length: (2 + spec_frames_size(s)) as u16,
            unit_id,
        },
    ) + seq![0x4cu8] + spec_frames_bytes(s)
}

/// Every sub-frame occupies at least its four header bytes on the wire.
proof fn lemma_frame_size_bounds(f: FeedbackFunction)
    ensures
        4 <= spec_frame_size(f) <= 12,
{
}

/// A prefix of a frame sequence never has a larger wire size than the whole.
proof fn lemma_frames_size_take_le(s: Seq<FeedbackFunction>, i: int)
    requires
        0 <= i <= s.len(),
    ensures
        spec_frames_size(s.take(i)) <= spec_frames_size(s),
    decreases s.len(),
{
    if i == s.len() {
        assert(s.take(i) =~= s);
    } else {
        assert(s.drop_last().take(i) =~= s.take(i));
        lemma_frames_size_take_le(s.drop_last(), i);
        lemma_frame_size_bounds(s.last());
    }
}

/// Ephemeral structure created from the transport to compose messages: the
/// per-connection transaction id counter and the fixed unit id.
#[derive(Debug, Clone, Copy, PartialEq, Eq, Structural)]
pub struct Compositor {
    pub transaction_id: u16,
    pub unit_id: u8,
}

impl Compositor {
    pub fn new(transaction_id: u16, unit_id: u8) -> (r: Self)
        ensures
            r == (Compositor { transaction_id, unit_id }),
    {
        Self { transaction_id, unit_id }
    }

    /// Advances the counter by one, wrapping, and hands out the fresh id.
    pub fn new_tid(&mut self) -> (t: u16)
        ensures
            t == spec_next_tid(old(self).transaction_id),
            final(self).transaction_id == t,
            final(self).unit_id == old(self).unit_id,
    {
        self.transaction_id = if self.transaction_id == 0xffff {
            0
        } else {
            self.transaction_id + 1
        };
        self.transaction_id
    }

    /// Composes a Read request for the next transaction id, advancing the
    /// counter.
    pub fn compose_read(&mut self, function: &ReadFunction) -> (r: Result<ComposedMessage, Error>)
        ensures
            r is Ok,
            final(self).unit_id == old(self).unit_id,
            final(self).transaction_id == spec_next_tid(old(self).transaction_id),
            r matches Ok(m) ==> m.content@ == spec_read_request(
                spec_next_tid(old(self).transaction_id),
                old(self).unit_id,
                function.0.address,
                function.0.data_type.spec_size(),
            ) && m.header == (Header {
                transaction_id: spec_next_tid(old(self).transaction_id),
                protocol_id: 0,
                length: 6,
                unit_id: old(self).unit_id,
            }) && m.expected_bytes == 2 * function.0.data_type.spec_size(),
    {
        let tid = self.new_tid();
        encode_read_request(tid, self.unit_id, function)
    }

    /// Composes a Write request for the next transaction id, advancing the
    /// counter. Rejects a value whose type is not the register's.
    pub fn compose_write(&mut self, function: &WriteFunction) -> (r: Result<ComposedMessage, Error>)
        ensures
            r is Ok <==> function.1.spec_type() == function.0.data_type,
            final(self).unit_id == old(self).unit_id,
            r matches Ok(m) ==> final(self).transaction_id == spec_next_tid(
                old(self).transaction_id,
            ) && m.content@ == spec_write_request(
                spec_next_tid(old(self).transaction_id),
                old(self).unit_id,
                function.0.address,
                function.0.data_type.spec_size(),
                spec_value_bytes(function.1),
            ) && m.header == (Header {
                transaction_id: spec_next_tid(old(self).transaction_id),
                protocol_id: 0,
                length: (7 + 2 * function.0.data_type.spec_size()) as u16,
                unit_id: old(self).unit_id,
            }) && m.expected_bytes == 4,
            r matches Err(e) ==> e matches Error::InvalidData(Reason::RegisterMismatch)
                && *final(self) == *old(self),
    {
        if function.1.data_type() != function.0.data_type {
            return Err(Error::InvalidData(Reason::RegisterMismatch));
        }
        let tid = self.new_tid();
        encode_write_request(tid, self.unit_id, function)
    }

    /// Composes a Feedback request bundling the given sub-frames, for the
    /// next transaction id, advancing the counter. Rejects a write frame
    /// whose value's type is not its register's, and a bundle whose length
    /// would not fit the 16-bit MBAP length field.
    pub fn compose_feedback(&mut self, fns: &[FeedbackFunction]) -> (r: Result<
        ComposedMessage,
        Error,
    >)
        ensures
            r is Ok <==> spec_frames_writes_ok(fns@) && 2 + spec_frames_size(fns@) <= 0xffff,
            final(self).unit_id == old(self).unit_id,
            r matches Ok(m) ==> final(self).transaction_id == spec_next_tid(
                old(self).transaction_id,
            ) && m.content@ == spec_feedback_request(
                spec_next_tid(old(self).transaction_id),
                old(self).unit_id,
                fns@,
            ) && m.header == (Header {
                transaction_id: spec_next_tid(old(self).transaction_id),
                protocol_id: 0,
                length: (2 + spec_frames_size(fns@)) as u16,
                unit_id: old(self).unit_id,
            }) && m.expected_bytes == 7 + spec_read_return_size(fns@),
            r matches Err(e) ==> *final(self) == *old(self) && (if !spec_frames_writes_ok(fns@) {
                e matches Error::InvalidData(Reason::RegisterMismatch)
            } else {
                e matches Error::InvalidData(Reason::SendBufferTooBig)
            }),
    {
        let (size, read_return) = match validate_feedback_frames(fns) {
            Ok(pair) => pair,
            Err(e) => {
                return Err(e);
            },
        };
        let tid = self.new_tid();
        encode_feedback_request(tid, self.unit_id, fns, size, read_return)
    }
}

/// Composes the wire bytes of a Read request under the given transaction and
/// unit ids: the building block shared by the compositor and by transports
/// that pair an id allocated elsewhere with a request.
pub fn encode_read_request(tid: u16, unit_id: u8, function: &ReadFunction) -> (r: Result<
    ComposedMessage,
    Error,
>)
    ensures
        r is Ok,
        r matches Ok(m) ==> m.content@ == spec_read_request(
            tid,
            unit_id,
            function.0.address,
            function.0.data_type.spec_size(),
        ) && m.header == (Header { transaction_id: tid, protocol_id: 0, length: 6, unit_id })
            && m.expected_bytes == 2 * function.0.data_type.spec_size(),
{
    let word_size = function.0.data_type.size();
    if word_size < 1 {
        return Err(Error::InvalidData(Reason::RecvBufferEmpty));
    }
    if word_size as usize > MODBUS_MAX_PACKET_SIZE {
        return Err(Error::InvalidData(Reason::UnexpectedReplySize));
    }
    let header = Header { transaction_id: tid, protocol_id: MODBUS_PROTOCOL_TCP, length: 6, unit_id };
    let mut content = match header.pack() {
        Ok(c) => c,
        Err(e) => {
            return Err(e);
        },
    };
    content.push(function.code());
    push_u16_be(&mut content, function.0.address);
    push_u16_be(&mut content, word_size);
    proof {
        assert(content@ =~= spec_read_request(
            tid,
            unit_id,
            function.0.address,
            function.0.data_type.spec_size(),
        ));
    }
    Ok(ComposedMessage { content, header, expected_bytes: 2 * word_size as usize })
}

/// Composes the wire bytes of a Write request under the given transaction and
/// unit ids. Rejects a value whose type is not the register's.
pub fn encode_write_request(tid: u16, unit_id: u8, function: &WriteFunction) -> (r: Result<
    ComposedMessage,
    Error,
>)
    ensures
        r is Ok <==> function.1.spec_type() == function.0.data_type,
        r matches Ok(m) ==> m.content@ == spec_write_request(
            tid,
            unit_id,
            function.0.address,
            function.0.data_type.spec_size(),
            spec_value_bytes(function.1),
        ) && m.header == (Header {
            transaction_id: tid,
            protocol_id: 0,
            length: (7 + 2 * function.0.data_type.spec_size()) as u16,
            unit_id,
        }) && m.expected_bytes == 4,
        r matches Err(e) ==> e matches Error::InvalidData(Reason::RegisterMismatch),
{
    if function.1.data_type() != function.0.data_type {
        return Err(Error::InvalidData(Reason::RegisterMismatch));
    }
    let size = function.0.data_type.size();
    let bytes: u16 = size * 2;
    let header = Header {
        transaction_id: tid,
        protocol_id: MODBUS_PROTOCOL_TCP,
        length: bytes + MODBUS_HEADER_SIZE as u16,
        unit_id,
    };
    let mut content = match header.pack() {
        Ok(c) => c,
        Err(e) => {
            return Err(e);
        },
    };
    content.push(function.code());
    push_u16_be(&mut content, function.0.address);
    push_u16_be(&mut content, size);
    let value_bytes = function.1.bytes();
    content.push(value_bytes.len() as u8);
    let ghost base = content@;
    let mut i: usize = 0;
    while i < value_bytes.len()
        invariant
            i <= value_bytes.len(),
            content@ == base + value_bytes@.subrange(0, i as int),
        decreases value_bytes.len() - i,
    {
        content.push(value_bytes[i]);
        i = i + 1;
        proof {
            assert(content@ =~= base + value_bytes@.subrange(0, i as int));
        }
    }
    proof {
        assert(value_bytes@.subrange(0, value_bytes@.len() as int) =~= value_bytes@);
        assert(content@ =~= spec_write_request(
            tid,
            unit_id,
            function.0.address,
            function.0.data_type.spec_size(),
            spec_value_bytes(function.1),
        ));
    }
    Ok(ComposedMessage { content, header, expected_bytes: 4 })
}

/// Walks the sub-frames of a Feedback bundle once: checks that every write
/// frame carries a value of its register's type, and that the bundle fits the
/// 16-bit MBAP length field; returns the bundle's length field value and the
/// payload size its reply will carry.
fn validate_feedback_frames(fns: &[FeedbackFunction]) -> (r: Result<(usize, usize), Error>)
    ensures
        r is Ok <==> spec_frames_writes_ok(fns@) && 2 + spec_frames_size(fns@) <= 0xffff,
        r matches Ok(pair) ==> pair.0 == 2 + spec_frames_size(fns@) && pair.1
            == spec_read_return_size(fns@) && pair.1 <= 2 * pair.0,
        r matches Err(e) ==> (if !spec_frames_writes_ok(fns@) {
            e matches Error::InvalidData(Reason::RegisterMismatch)
        } else {
            e matches Error::InvalidData(Reason::SendBufferTooBig)
        }),
{
    let mut i: usize = 0;
    while i < fns.len()
        invariant
            i <= fns@.len(),
            forall|j: int|
                0 <= j < i ==> (#[trigger] fns@[j] matches FeedbackFunction::WriteRegister(reg, v)
                    ==> v.spec_type() == reg.data_type),
        decreases fns@.len() - i,
    {
        if let FeedbackFunction::WriteRegister(reg, v) = &fns[i] {
            if v.data_type() != reg.data_type {
                return Err(Error::InvalidData(Reason::RegisterMismatch));
            }
        }
        i = i + 1;
    }
    let mut size_acc: usize = 2;
    let mut read_acc: usize = 0;
    let mut i: usize = 0;
    while i < fns.len()
        invariant
            i <= fns@.len(),
            spec_frames_writes_ok(fns@),
            size_acc == 2 + spec_frames_size(fns@.take(i as int)),
            read_acc == spec_read_return_size(fns@.take(i as int)),
            size_acc <= 0xffff,
            read_acc <= 2 * size_acc,
        decreases fns@.len() - i,
    {
        proof {
            assert(fns@.take(i + 1).drop_last() =~= fns@.take(i as int));
            assert(fns@.take(i + 1).last() == fns@[i as int]);
            lemma_frame_size_bounds(fns@[i as int]);
        }
        match &fns[i] {
            FeedbackFunction::ReadRegister(reg) => {
                let words = reg.data_type.size();
                size_acc = size_acc + 4;
                read_acc = read_acc + 2 * words as usize;
            },
            FeedbackFunction::WriteRegister(reg, _) => {
                let words = reg.data_type.size();
                size_acc = size_acc + 4 + 2 * words as usize;
            },
        }
        i = i + 1;
        if size_acc > 0xffff {
            proof {
                lemma_frames_size_take_le(fns@, i as int);
                assert(2 + spec_frames_size(fns@) > 0xffff);
            }
            return Err(Error::InvalidData(Reason::SendBufferTooBig));
        }
    }
    proof {
        assert(fns@.take(fns@.len() as int) =~= fns@);
    }
    Ok((size_acc, read_acc))
}

/// Composes the wire bytes of a Feedback request under the given transaction
/// and unit ids, from sub-frames already validated by
/// [`validate_feedback_frames`].
fn encode_feedback_request(
    tid: u16,
    unit_id: u8,
    fns: &[FeedbackFunction],
    size: usize,
    read_return: usize,
) -> (r: Result<ComposedMessage, Error>)
    requires
        spec_frames_writes_ok(fns@),
        size == 2 + spec_frames_size(fns@),
        size <= 0xffff,
        read_return == spec_read_return_size(fns@),
        read_return <= 2 * size,
    ensures
        r is Ok,
        r matches Ok(m) ==> m.content@ == spec_feedback_request(tid, unit_id, fns@) && m.header
            == (Header {
            transaction_id: tid,
            protocol_id: 0,
            length: (2 + spec_frames_size(fns@)) as u16,
            unit_id,
        }) && m.expected_bytes == 7 + spec_read_return_size(fns@),
{
    let header = Header {
        transaction_id: tid,
        protocol_id: MODBUS_PROTOCOL_TCP,
        length: size as u16,
        unit_id,
    };
    let mut content = match header.pack() {
        Ok(c) => c,
        Err(e) => {
            return Err(e);
        },
    };
    content.push(0x4c);
    let ghost prefix = spec_header_bytes(header) + seq![0x4cu8];
    proof {
        assert(content@ =~= prefix + spec_frames_bytes(fns@.take(0)));
    }
    let mut i: usize = 0;
    while i < fns.len()
        invariant
            i <= fns@.len(),
            spec_frames_writes_ok(fns@),
            content@ == prefix + spec_frames_bytes(fns@.take(i as int)),
        decreases fns@.len() - i,
    {
        let frame = &fns[i];
        content.push(frame.code());
        let register = frame.register();
        push_u16_be(&mut content, register.address);
        content.push(register.data_type.size() as u8);
        if let FeedbackFunction::WriteRegister(_, value) = frame {
            let value_bytes = value.bytes();
            let ghost base = content@;
            let mut j: usize = 0;
            while j < value_bytes.len()
                invariant
                    j <= value_bytes.len(),
                    content@ == base + value_bytes@.subrange(0, j as int),
                decreases value_bytes.len() - j,
            {
                content.push(value_bytes[j]);
                j = j + 1;
                proof {
                    assert(content@ =~= base + value_bytes@.subrange(0, j as int));
                }
            }
            proof {
                assert(value_bytes@.subrange(0, value_bytes@.len() as int) =~= value_bytes@);
            }
        }
        i = i + 1;
        proof {
            assert(fns@.take(i as int).drop_last() =~= fns@.take(i - 1));
            assert(fns@.take(i as int).last() == fns@[i - 1]);
            assert(content@ =~= prefix + spec_frames_bytes(fns@.take(i as int)));
        }
    }
    proof {
        assert(fns@.take(fns@.len() as int) =~= fns@);
        assert(content@ =~= spec_feedback_request(tid, unit_id, fns@));
    }
    Ok(ComposedMessage { content, header, expected_bytes: 7 + read_return })
}

} // verus!
