//! The byte layout of what crosses the kernel boundary.
//!
//! All multi-byte fields are stored in the byte order of the machine. The
//! functions here take the order as an argument, so that what they compute is
//! the same everywhere; [`ByteOrder::native`] finds out the machine's.

use vstd::prelude::*;
use crate::common::MorpheusHint;

verus! {

/// Size of one hint record in the ring, in bytes.
pub const HINT_SIZE: usize = 24;

/// Offset of the sequence number in a hint record.
pub const HINT_SEQ_OFFSET: usize = 0;

/// Offset of the reason code in a hint record.
pub const HINT_REASON_OFFSET: usize = 8;

/// Offset of the target thread id in a hint record.
pub const HINT_TARGET_TID_OFFSET: usize = 12;

/// Offset of the deadline in a hint record.
pub const HINT_DEADLINE_OFFSET: usize = 16;

/// The order in which the bytes of an integer lie in memory.
#[derive(Clone, Copy, Debug, PartialEq, Eq, Structural)]
pub enum ByteOrder {
    /// Least significant byte first.
    Little,
    /// Most significant byte first.
    Big,
}

/// The value of the four bytes at `at`, least significant byte first.
pub open spec fn le_u32(bytes: Seq<u8>, at: int) -> int {
    bytes[at] + bytes[at + 1] * 0x100 + bytes[at + 2] * 0x1_0000 + bytes[at + 3] * 0x100_0000
}

/// The value of the four bytes at `at`, most significant byte first.
pub open spec fn be_u32(bytes: Seq<u8>, at: int) -> int {
    bytes[at + 3] + bytes[at + 2] * 0x100 + bytes[at + 1] * 0x1_0000 + bytes[at] * 0x100_0000
}

/// The value of the four bytes at `at` in the given order.
pub open spec fn u32_at(bytes: Seq<u8>, at: int, order: ByteOrder) -> int {
    match order {
        ByteOrder::Little => le_u32(bytes, at),
        ByteOrder::Big => be_u32(bytes, at),
    }
}

/// The value of the eight bytes at `at` in the given order.
pub open spec fn u64_at(bytes: Seq<u8>, at: int, order: ByteOrder) -> int {
    match order {
        ByteOrder::Little => le_u32(bytes, at) + le_u32(bytes, at + 4) * 0x1_0000_0000,
        ByteOrder::Big => be_u32(bytes, at + 4) + be_u32(bytes, at) * 0x1_0000_0000,
    }
}

/// The byte of `value` with significance `index`; index 0 is the least
/// significant byte.
pub open spec fn byte_of(value: int, index: int) -> u8 {
    if index == 0 {
        (value % 0x100) as u8
    } else if index == 1 {
        (value / 0x100 % 0x100) as u8
    } else if index == 2 {
        (value / 0x1_0000 % 0x100) as u8
    } else if index == 3 {
        (value / 0x100_0000 % 0x100) as u8
    } else if index == 4 {
        (value / 0x1_0000_0000 % 0x100) as u8
    } else if index == 5 {
        (value / 0x100_0000_0000 % 0x100) as u8
    } else if index == 6 {
        (value / 0x1_0000_0000_0000 % 0x100) as u8
    } else {
        (value / 0x100_0000_0000_0000 % 0x100) as u8
    }
}

/// The `width` bytes of `value` in the given order.
pub open spec fn bytes_of(value: int, width: int, order: ByteOrder) -> Seq<u8> {
    Seq::new(
        width as nat,
        |i: int|
            match order {
                ByteOrder::Little => byte_of(value, i),
                ByteOrder::Big => byte_of(value, width - 1 - i),
            },
    )
}

/// The hint record that the first 24 bytes of `bytes` hold.
pub open spec fn hint_at(bytes: Seq<u8>, order: ByteOrder) -> MorpheusHint {
    MorpheusHint {
        seq: u64_at(bytes, HINT_SEQ_OFFSET as int, order) as u64,
        reason: u32_at(bytes, HINT_REASON_OFFSET as int, order) as u32,
        target_tid: u32_at(bytes, HINT_TARGET_TID_OFFSET as int, order) as u32,
        deadline_ns: u64_at(bytes, HINT_DEADLINE_OFFSET as int, order) as u64,
    }
}

/// The 24 bytes that hold `hint`.
pub open spec fn hint_bytes(hint: MorpheusHint, order: ByteOrder) -> Seq<u8> {
    bytes_of(hint.seq as int, 8, order) + bytes_of(hint.reason as int, 4, order) + bytes_of(
        hint.target_tid as int,
        4,
        order,
    ) + bytes_of(hint.deadline_ns as int, 8, order)
}

/// `u16::from_ne_bytes`: the value that the bytes 1, 0 have as a 16-bit
/// integer on this machine. It is 1 where the least significant byte comes
/// first and 256 where it comes last; which of the two is not known here.
#[verifier::external_body]
fn native_probe() -> (value: u16)
    ensures
        value == 1 || value == 256,
{
    u16::from_ne_bytes([1, 0])
}

impl ByteOrder {
    /// The byte order under which the bytes 1, 0 read as `marker`: least
    /// significant byte first if that is 1, most significant byte first
    /// otherwise.
    pub open spec fn marked(marker: u16) -> ByteOrder {
        if marker == 1 {
            ByteOrder::Little
        } else {
            ByteOrder::Big
        }
    }

    /// The byte order of the machine that runs this. Which one that is
    /// cannot be known before the machine is asked.
    pub fn native() -> ByteOrder {
        ByteOrder::from_marker(native_probe())
    }

    /// The byte order of a machine on which the bytes 1, 0 read as `marker`.
    pub fn from_marker(marker: u16) -> (order: ByteOrder)
        ensures
            order == ByteOrder::marked(marker),
            marker == 1 ==> order == ByteOrder::Little,
            marker == 256 ==> order == ByteOrder::Big,
    {
        if marker == 1 {
            ByteOrder::Little
        } else {
            ByteOrder::Big
        }
    }
}

/// Reads the 32-bit integer that starts at `offset`.
pub fn read_u32(data: &[u8], offset: usize, order: ByteOrder) -> (value: u32)
    requires
        offset + 4 <= data.len(),
    ensures
        value == u32_at(data@, offset as int, order),
{
    let b0 = data[offset] as u32;
    let b1 = data[offset + 1] as u32;
    let b2 = data[offset + 2] as u32;
    let b3 = data[offset + 3] as u32;
    match order {
        ByteOrder::Little => b0 + b1 * 0x100 + b2 * 0x1_0000 + b3 * 0x100_0000,
        ByteOrder::Big => b3 + b2 * 0x100 + b1 * 0x1_0000 + b0 * 0x100_0000,
    }
}

/// Reads the 64-bit integer that starts at `offset`.
pub fn read_u64(data: &[u8], offset: usize, order: ByteOrder) -> (value: u64)
    requires
        offset + 8 <= data.len(),
    ensures
        value == u64_at(data@, offset as int, order),
{
    let first = read_u32(data, offset, order) as u64;
    let second = read_u32(data, offset + 4, order) as u64;
    match order {
        ByteOrder::Little => first + second * 0x1_0000_0000,
        ByteOrder::Big => second + first * 0x1_0000_0000,
    }
}

/// Appends the four bytes of `value` in the given order.
pub fn write_u32(out: &mut Vec<u8>, value: u32, order: ByteOrder)
    ensures
        final(out)@ == old(out)@ + bytes_of(value as int, 4, order),
{
    let b0 = (value % 0x100) as u8;
    let b1 = (value / 0x100 % 0x100) as u8;
    let b2 = (value / 0x1_0000 % 0x100) as u8;
    let b3 = (value / 0x100_0000 % 0x100) as u8;
    match order {
        ByteOrder::Little => {
            out.push(b0);
            out.push(b1);
            out.push(b2);
            out.push(b3);
        },
        ByteOrder::Big => {
            out.push(b3);
            out.push(b2);
            out.push(b1);
            out.push(b0);
        },
    }
    assert(out@ =~= old(out)@ + bytes_of(value as int, 4, order));
}

/// Appends the eight bytes of `value` in the given order.
pub fn write_u64(out: &mut Vec<u8>, value: u64, order: ByteOrder)
    ensures
        final(out)@ == old(out)@ + bytes_of(value as int, 8, order),
{
    let b0 = (value % 0x100) as u8;
    let b1 = (value / 0x100 % 0x100) as u8;
    let b2 = (value / 0x1_0000 % 0x100) as u8;
    let b3 = (value / 0x100_0000 % 0x100) as u8;
    let b4 = (value / 0x1_0000_0000 % 0x100) as u8;
    let b5 = (value / 0x100_0000_0000 % 0x100) as u8;
    let b6 = (value / 0x1_0000_0000_0000 % 0x100) as u8;
    let b7 = (value / 0x100_0000_0000_0000 % 0x100) as u8;
    match order {
        ByteOrder::Little => {
            out.push(b0);
            out.push(b1);
            out.push(b2);
            out.push(b3);
            out.push(b4);
            out.push(b5);
            out.push(b6);
            out.push(b7);
        },
        ByteOrder::Big => {
            out.push(b7);
            out.push(b6);
            out.push(b5);
            out.push(b4);
            out.push(b3);
            out.push(b2);
            out.push(b1);
            out.push(b0);
        },
    }
    assert(out@ =~= old(out)@ + bytes_of(value as int, 8, order));
}

/// Reads a hint record from the head of `data`. A payload shorter than a
/// record holds none.
pub fn parse_hint(data: &[u8], order: ByteOrder) -> (hint: Option<MorpheusHint>)
    ensures
        hint is Some <==> data.len() >= HINT_SIZE,
        hint matches Some(record) ==> record == hint_at(data@, order),
{
    if data.len() < HINT_SIZE {
        return None;
    }
    Some(
        MorpheusHint {
            seq: read_u64(data, HINT_SEQ_OFFSET, order),
            reason: read_u32(data, HINT_REASON_OFFSET, order),
            target_tid: read_u32(data, HINT_TARGET_TID_OFFSET, order),
            deadline_ns: read_u64(data, HINT_DEADLINE_OFFSET, order),
        },
    )
}

/// Writes `hint` as the 24 bytes of a ring record.
pub fn encode_hint(hint: &MorpheusHint, order: ByteOrder) -> (bytes: Vec<u8>)
    ensures
        bytes@ == hint_bytes(*hint, order),
        bytes.len() == HINT_SIZE,
{
    let mut bytes: Vec<u8> = Vec::new();
    write_u64(&mut bytes, hint.seq, order);
    write_u32(&mut bytes, hint.reason, order);
    write_u32(&mut bytes, hint.target_tid, order);
    write_u64(&mut bytes, hint.deadline_ns, order);
    assert(bytes@ =~= hint_bytes(*hint, order));
    bytes
}

/// A record that was written is read back unchanged, whatever follows it in
/// the payload.
pub proof fn lemma_hint_round_trip(hint: MorpheusHint, order: ByteOrder, tail: Seq<u8>)
    ensures
        hint_at(hint_bytes(hint, order) + tail, order) == hint,
{
    let bytes = hint_bytes(hint, order) + tail;
    assert(hint_bytes(hint, order).len() == 24);
    assert forall|i: int| 0 <= i < 8 implies bytes[i] == bytes_of(hint.seq as int, 8, order)[i] by {}
    assert forall|i: int| 0 <= i < 4 implies bytes[8 + i] == bytes_of(
        hint.reason as int,
        4,
        order,
    )[i] by {}
    assert forall|i: int| 0 <= i < 4 implies bytes[12 + i] == bytes_of(
        hint.target_tid as int,
        4,
        order,
    )[i] by {}
    assert forall|i: int| 0 <= i < 8 implies bytes[16 + i] == bytes_of(
        hint.deadline_ns as int,
        8,
        order,
    )[i] by {}
    lemma_u64_round_trip(bytes, 0, hint.seq, order);
    lemma_u32_round_trip(bytes, 8, hint.reason, order);
    lemma_u32_round_trip(bytes, 12, hint.target_tid, order);
    lemma_u64_round_trip(bytes, 16, hint.deadline_ns, order);
}

pub(crate) proof fn lemma_u32_round_trip(bytes: Seq<u8>, at: int, value: u32, order: ByteOrder)
    requires
        0 <= at,
        at + 4 <= bytes.len(),
        forall|i: int| 0 <= i < 4 ==> bytes[at + i] == bytes_of(value as int, 4, order)[i],
    ensures
        u32_at(bytes, at, order) == value,
{
    let v = value as int;
    assert(bytes[at] == bytes_of(v, 4, order)[0]);
    assert(bytes[at + 1] == bytes_of(v, 4, order)[1]);
    assert(bytes[at + 2] == bytes_of(v, 4, order)[2]);
    assert(bytes[at + 3] == bytes_of(v, 4, order)[3]);
}

/// The eight bytes of a 64-bit value add up to the value.
proof fn lemma_bytes_sum(v: int)
    requires
        0 <= v < 0x1_0000_0000_0000_0000,
    ensures
        v == byte_of(v, 0) + byte_of(v, 1) * 0x100 + byte_of(v, 2) * 0x1_0000 + byte_of(v, 3)
            * 0x100_0000 + (byte_of(v, 4) + byte_of(v, 5) * 0x100 + byte_of(v, 6) * 0x1_0000
            + byte_of(v, 7) * 0x100_0000) * 0x1_0000_0000,
{
    let q1 = v / 0x100;
    let q2 = v / 0x1_0000;
    let q3 = v / 0x100_0000;
    let q4 = v / 0x1_0000_0000;
    let q5 = v / 0x100_0000_0000;
    let q6 = v / 0x1_0000_0000_0000;
    let q7 = v / 0x100_0000_0000_0000;
    assert(q2 == q1 / 0x100);
    assert(q3 == q2 / 0x100);
    assert(q4 == q3 / 0x100);
    assert(q5 == q4 / 0x100);
    assert(q6 == q5 / 0x100);
    assert(q7 == q6 / 0x100);
    assert(v == v % 0x100 + 0x100 * q1);
    assert(q1 == q1 % 0x100 + 0x100 * q2);
    assert(q2 == q2 % 0x100 + 0x100 * q3);
    assert(q3 == q3 % 0x100 + 0x100 * q4);
    assert(q4 == q4 % 0x100 + 0x100 * q5);
    assert(q5 == q5 % 0x100 + 0x100 * q6);
    assert(q6 == q6 % 0x100 + 0x100 * q7);
    assert(q7 == q7 % 0x100);
}

pub(crate) proof fn lemma_u64_round_trip(bytes: Seq<u8>, at: int, value: u64, order: ByteOrder)
    requires
        0 <= at,
        at + 8 <= bytes.len(),
        forall|i: int| 0 <= i < 8 ==> bytes[at + i] == bytes_of(value as int, 8, order)[i],
    ensures
        u64_at(bytes, at, order) == value,
{
    let v = value as int;
    assert(bytes[at] == bytes_of(v, 8, order)[0]);
    assert(bytes[at + 1] == bytes_of(v, 8, order)[1]);
    assert(bytes[at + 2] == bytes_of(v, 8, order)[2]);
    assert(bytes[at + 3] == bytes_of(v, 8, order)[3]);
    assert(bytes[at + 4] == bytes_of(v, 8, order)[4]);
    assert(bytes[at + 5] == bytes_of(v, 8, order)[5]);
    assert(bytes[at + 6] == bytes_of(v, 8, order)[6]);
    assert(bytes[at + 7] == bytes_of(v, 8, order)[7]);
    lemma_bytes_sum(v);
}

} // verus!
