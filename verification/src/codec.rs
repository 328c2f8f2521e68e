use vstd::prelude::*;

use crate::bytes::{le32, le64, read_le32, read_le64, write_le32, write_le64};
use crate::error::TransferError;
use crate::layout::{align_up, Platform};

verus! {

/// The fixed one-byte data payload that accompanies the ancillary record.
/// It carries no information; the receiver rejects any other value.
pub const SENTINEL: u8 = 1;

/// One transfer as it crosses the channel: the one-byte data payload and the
/// ancillary (control) bytes that carry the descriptor record.
pub struct TransferMessage {
    /// The one-byte data payload; a valid message carries [`SENTINEL`].
    pub payload: u8,
    /// The raw control block holding the ancillary record.
    pub control: Vec<u8>,
}

/// Whether the receive flags report a truncated data or control portion.
pub open spec fn truncated(p: Platform, flags: i32) -> bool {
    flags & (p.msg_trunc | p.msg_ctrunc) != 0
}

/// The length the record's header declares for the record, read from the
/// first `len_width` bytes of the control block.
pub open spec fn declared_len(p: Platform, c: Seq<u8>) -> int {
    if p.len_width == 8 {
        le64(c.subrange(0, 8)) as int
    } else {
        le32(c.subrange(0, 4)) as int
    }
}

/// The record's category ("level") field.
pub open spec fn record_level(p: Platform, c: Seq<u8>) -> i32 {
    le32(c.subrange(p.len_width as int, p.len_width as int + 4)) as i32
}

/// The record's type field.
pub open spec fn record_type(p: Platform, c: Seq<u8>) -> i32 {
    le32(c.subrange(p.len_width as int + 4, p.len_width as int + 8)) as i32
}

/// The descriptor value embedded directly after the record header.
pub open spec fn record_fd(p: Platform, c: Seq<u8>) -> i32 {
    le32(c.subrange(p.spec_header_len(), p.spec_header_len() + 4)) as i32
}

/// Whether the control block holds one record sized for exactly one
/// descriptor: a whole header is present, the declared length covers the
/// header plus one descriptor value exactly, and the control length covers
/// the declared record, so that every byte read below is in bounds.
pub open spec fn record_well_sized(p: Platform, c: Seq<u8>, control_len: int) -> bool {
    &&& control_len >= p.spec_header_len()
    &&& declared_len(p, c) == p.spec_record_len()
    &&& control_len >= p.spec_record_len()
}

/// Whether the record is tagged "pass descriptor rights" on the
/// socket-level category.
pub open spec fn record_kind_ok(p: Platform, c: Seq<u8>) -> bool {
    &&& record_level(p, c) == p.sol_socket
    &&& record_type(p, c) == p.scm_rights
}

/// Whether a second record starts inside the control length: the first
/// record, rounded up to the alignment unit, leaves room for another whole
/// header.
pub open spec fn has_extra_record(p: Platform, c: Seq<u8>, control_len: int) -> bool {
    align_up(declared_len(p, c), p.align as int) + p.spec_header_len() <= control_len
}

/// The decoder's full contract: the ordered, short-circuiting validation of
/// a received message, ending in the embedded descriptor.  The first failing
/// check names the error; a descriptor is returned only when every check
/// passes.
pub open spec fn decode_spec(
    p: Platform,
    flags: i32,
    payload: u8,
    c: Seq<u8>,
    control_len: int,
) -> Result<i32, TransferError> {
    if truncated(p, flags) {
        Err(TransferError::TruncatedMessage)
    } else if !record_well_sized(p, c, control_len) {
        Err(TransferError::MalformedRecord)
    } else if !record_kind_ok(p, c) {
        Err(TransferError::UnexpectedRecordKind)
    } else if payload != SENTINEL {
        Err(TransferError::UnexpectedPayload)
    } else if has_extra_record(p, c, control_len) {
        Err(TransferError::ExtraRecord)
    } else {
        Ok(record_fd(p, c))
    }
}

/// Validates one received message and extracts the descriptor it carries.
///
/// `flags` are the receive flags the transport reported, `control_len` the
/// number of control bytes it filled in `msg.control`.  The result is
/// exactly [`decode_spec`]: the five checks in order, then the descriptor.
pub fn decode_message(p: &Platform, flags: i32, msg: &TransferMessage, control_len: usize) -> (r:
    Result<i32, TransferError>)
    requires
        p.wf(),
        control_len <= msg.control@.len(),
    ensures
        r == decode_spec(*p, flags, msg.payload, msg.control@, control_len as int),
{
    if flags & (p.msg_trunc | p.msg_ctrunc) != 0 {
        return Err(TransferError::TruncatedMessage);
    }
    let header = p.header_len();
    let rlen = p.record_len();
    if control_len < header {
        return Err(TransferError::MalformedRecord);
    }
    let declared: u64 = if p.len_width == 8 {
        read_le64(&msg.control, 0)
    } else {
        read_le32(&msg.control, 0) as u64
    };
    if declared != rlen as u64 || control_len < rlen {
        return Err(TransferError::MalformedRecord);
    }
    let level = read_le32(&msg.control, p.len_width) as i32;
    let rtype = read_le32(&msg.control, p.len_width + 4) as i32;
    if level != p.sol_socket || rtype != p.scm_rights {
        return Err(TransferError::UnexpectedRecordKind);
    }
    if msg.payload != SENTINEL {
        return Err(TransferError::UnexpectedPayload);
    }
    let rounded = (rlen + p.align - 1) / p.align * p.align;
    if rounded + header <= control_len {
        return Err(TransferError::ExtraRecord);
    }
    Ok(read_le32(&msg.control, header) as i32)
}

/// Casting a 32-bit value to unsigned and back returns the value itself.
proof fn lemma_i32_cast_roundtrip(x: i32)
    by (bit_vector)
    ensures
        #[verifier::truncate] ((x as u32) as i32) == x,
{
}

/// Builds the one message that transfers `fd`: the sentinel payload, and a
/// control block of exactly one rights record whose header declares the
/// exact length of one descriptor value, with `fd` embedded after the
/// header and every padding byte zero.
pub fn encode_message(p: &Platform, fd: i32) -> (m: TransferMessage)
    requires
        p.wf(),
    ensures
        m.payload == SENTINEL,
        m.control@.len() == p.spec_space(),
        declared_len(*p, m.control@) == p.spec_record_len(),
        record_level(*p, m.control@) == p.sol_socket,
        record_type(*p, m.control@) == p.scm_rights,
        record_fd(*p, m.control@) == fd,
        forall|i: int|
            p.spec_record_len() <= i < m.control@.len() ==> m.control@[i] == 0,
{
    let space = p.space();
    let header = p.header_len();
    let rlen = p.record_len();
    let mut c: Vec<u8> = Vec::new();
    while c.len() < space
        invariant
            c@.len() <= space,
            forall|i: int| 0 <= i < c@.len() ==> c@[i] == 0,
        decreases space - c@.len(),
    {
        c.push(0);
    }
    if p.len_width == 8 {
        write_le64(&mut c, 0, rlen as u64);
    } else {
        write_le32(&mut c, 0, rlen as u32);
    }
    let ghost c1 = c@;
    write_le32(&mut c, p.len_width, p.sol_socket as u32);
    let ghost c2 = c@;
    write_le32(&mut c, p.len_width + 4, p.scm_rights as u32);
    let ghost c3 = c@;
    write_le32(&mut c, header, fd as u32);
    proof {
        let lw = p.len_width as int;
        let hd = p.spec_header_len();
        assert(forall|i: int| 0 <= i < lw ==> c2[i] == c1[i]);
        assert(forall|i: int| 0 <= i < lw ==> c3[i] == c2[i]);
        assert(forall|i: int| 0 <= i < lw ==> c@[i] == c3[i]);
        assert(c@.subrange(0, lw) =~= c1.subrange(0, lw));
        assert(forall|i: int| lw <= i < lw + 4 ==> c3[i] == c2[i]);
        assert(forall|i: int| lw <= i < lw + 4 ==> c@[i] == c3[i]);
        assert(c@.subrange(lw, lw + 4) =~= c2.subrange(lw, lw + 4));
        assert(forall|i: int| lw + 4 <= i < lw + 8 ==> c@[i] == c3[i]);
        assert(c@.subrange(lw + 4, lw + 8) =~= c3.subrange(lw + 4, lw + 8));
        lemma_i32_cast_roundtrip(p.sol_socket);
        lemma_i32_cast_roundtrip(p.scm_rights);
        lemma_i32_cast_roundtrip(fd);
        if p.len_width == 8 {
            assert(le64(c1.subrange(0, 8)) == rlen as u64);
        } else {
            assert(le32(c1.subrange(0, 4)) == rlen as u32);
        }
    }
    TransferMessage { payload: SENTINEL, control: c }
}

/// Round trip: a message whose control block is exactly one well-formed
/// rights record — as the encoder builds it — received untruncated, at the
/// full control-block size and with the sentinel payload, decodes to the
/// embedded descriptor.  Together with the encoder's contract this says that
/// what `encode_message` produces, `decode_spec` accepts, returning the very
/// descriptor that was encoded.
pub proof fn lemma_round_trip(p: Platform, flags: i32, payload: u8, c: Seq<u8>, control_len: int)
    requires
        p.wf(),
        !truncated(p, flags),
        payload == SENTINEL,
        control_len == p.spec_space(),
        declared_len(p, c) == p.spec_record_len(),
        record_kind_ok(p, c),
    ensures
        decode_spec(p, flags, payload, c, control_len) == Result::<i32, TransferError>::Ok(
            record_fd(p, c),
        ),
{
    if p.len_width == 8 {
        assert(align_up(20, 8) == 24);
    } else {
        assert(align_up(16, 4) == 16);
    }
}

/// A message whose receive flags report truncation is rejected as
/// truncated, whatever its contents: no descriptor is returned.
pub proof fn lemma_truncation_rejected(
    p: Platform,
    flags: i32,
    payload: u8,
    c: Seq<u8>,
    control_len: int,
)
    requires
        truncated(p, flags),
    ensures
        decode_spec(p, flags, payload, c, control_len) == Result::<i32, TransferError>::Err(
            TransferError::TruncatedMessage,
        ),
{
}

/// A record of the right size whose category or type is not "pass
/// descriptor rights" on the socket-level category is rejected as the wrong
/// record kind: no descriptor is returned.
pub proof fn lemma_wrong_kind_rejected(
    p: Platform,
    flags: i32,
    payload: u8,
    c: Seq<u8>,
    control_len: int,
)
    requires
        !truncated(p, flags),
        record_well_sized(p, c, control_len),
        !record_kind_ok(p, c),
    ensures
        decode_spec(p, flags, payload, c, control_len) == Result::<i32, TransferError>::Err(
            TransferError::UnexpectedRecordKind,
        ),
{
}

/// A message whose one-byte payload is not the sentinel is rejected, even
/// when its ancillary record is otherwise well-formed: no descriptor is
/// returned.
pub proof fn lemma_wrong_payload_rejected(
    p: Platform,
    flags: i32,
    payload: u8,
    c: Seq<u8>,
    control_len: int,
)
    requires
        !truncated(p, flags),
        record_well_sized(p, c, control_len),
        record_kind_ok(p, c),
        payload != SENTINEL,
    ensures
        decode_spec(p, flags, payload, c, control_len) == Result::<i32, TransferError>::Err(
            TransferError::UnexpectedPayload,
        ),
{
}

/// A message that looks valid but leaves room for a second record inside
/// its control length is rejected outright: no descriptor is returned from
/// either record.
pub proof fn lemma_extra_record_rejected(
    p: Platform,
    flags: i32,
    payload: u8,
    c: Seq<u8>,
    control_len: int,
)
    requires
        !truncated(p, flags),
        record_well_sized(p, c, control_len),
        record_kind_ok(p, c),
        payload == SENTINEL,
        has_extra_record(p, c, control_len),
    ensures
        decode_spec(p, flags, payload, c, control_len) == Result::<i32, TransferError>::Err(
            TransferError::ExtraRecord,
        ),
{
}

/// A descriptor comes out only of a fully valid message: if decoding
/// returns a descriptor at all, the message was untruncated, carried one
/// exactly-sized rights record and the sentinel payload, had no second
/// record, and the descriptor is the one embedded in that record.
pub proof fn lemma_accepts_only_valid(
    p: Platform,
    flags: i32,
    payload: u8,
    c: Seq<u8>,
    control_len: int,
    fd: i32,
)
    requires
        decode_spec(p, flags, payload, c, control_len) == Result::<i32, TransferError>::Ok(fd),
    ensures
        !truncated(p, flags),
        record_well_sized(p, c, control_len),
        record_kind_ok(p, c),
        payload == SENTINEL,
        !has_extra_record(p, c, control_len),
        fd == record_fd(p, c),
{
}

} // verus!
