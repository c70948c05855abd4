//! What is said to the kernel to register a worker, and what its answers
//! mean.
//!
//! The system calls themselves are made by the caller. This module builds the
//! attribute blocks they are handed, as bytes, and turns their results into
//! the outcome of the operation.

use vstd::prelude::*;
use vstd::string::StringExecFns;
use crate::error::Error;
use crate::text::{decimal, push_decimal};
use crate::wire::{bytes_of, read_u64, u64_at, write_u32, write_u64, ByteOrder};

verus! {

/// Command number of "update a map element".
pub const BPF_MAP_UPDATE_ELEM: u32 = 2;

/// Command number of "delete a map element".
pub const BPF_MAP_DELETE_ELEM: u32 = 3;

/// Command number of "open a pinned object".
pub const BPF_OBJ_GET: u32 = 7;

/// Update flag: create the element or replace it.
pub const BPF_ANY: u64 = 0;

/// Error number of "no such entry".
pub const ENOENT: i32 = 2;

/// Size of the attribute block of an update, in bytes.
pub const UPDATE_ATTR_SIZE: usize = 32;

/// Size of the attribute block of a delete, in bytes.
pub const DELETE_ATTR_SIZE: usize = 16;

/// Size of the attribute block of an open, in bytes.
pub const OBJ_GET_ATTR_SIZE: usize = 16;

/// Size of the scheduler's statistics record, in bytes.
pub const STATS_SIZE: usize = 40;

/// The attributes of "update a map element".
#[derive(Clone, Copy, Debug, PartialEq, Eq, Structural)]
pub struct BpfMapUpdateAttr {
    /// Descriptor of the map.
    pub map_fd: u32,
    /// Address of the key.
    pub key: u64,
    /// Address of the value.
    pub value: u64,
    /// Update flags.
    pub flags: u64,
}

/// The attributes of "delete a map element".
#[derive(Clone, Copy, Debug, PartialEq, Eq, Structural)]
pub struct BpfMapDeleteAttr {
    /// Descriptor of the map.
    pub map_fd: u32,
    /// Address of the key.
    pub key: u64,
}

/// The attributes of "open a pinned object".
#[derive(Clone, Copy, Debug, PartialEq, Eq, Structural)]
pub struct BpfObjGetAttr {
    /// Address of the path, a string that ends with a zero byte.
    pub pathname: u64,
    /// Unused for opening; zero.
    pub bpf_fd: u32,
    /// Access flags; zero for the map's own.
    pub file_flags: u32,
}

impl BpfMapUpdateAttr {
    /// The block as the kernel reads it: the descriptor, four bytes of
    /// padding so that the key's address is aligned, then the two addresses
    /// and the flags.
    pub open spec fn image(self, order: ByteOrder) -> Seq<u8> {
        bytes_of(self.map_fd as int, 4, order) + bytes_of(0, 4, order) + bytes_of(
            self.key as int,
            8,
            order,
        ) + bytes_of(self.value as int, 8, order) + bytes_of(self.flags as int, 8, order)
    }

    /// Writes the block as the kernel reads it.
    pub fn to_bytes(&self, order: ByteOrder) -> (bytes: Vec<u8>)
        ensures
            bytes@ == self.image(order),
            bytes.len() == UPDATE_ATTR_SIZE,
    {
        let mut bytes: Vec<u8> = Vec::new();
        write_u32(&mut bytes, self.map_fd, order);
        write_u32(&mut bytes, 0, order);
        write_u64(&mut bytes, self.key, order);
        write_u64(&mut bytes, self.value, order);
        write_u64(&mut bytes, self.flags, order);
        assert(bytes@ =~= self.image(order));
        bytes
    }
}

impl BpfMapDeleteAttr {
    /// The block as the kernel reads it: the descriptor, four bytes of
    /// padding, then the key's address.
    pub open spec fn image(self, order: ByteOrder) -> Seq<u8> {
        bytes_of(self.map_fd as int, 4, order) + bytes_of(0, 4, order) + bytes_of(
            self.key as int,
            8,
            order,
        )
    }

    /// Writes the block as the kernel reads it.
    pub fn to_bytes(&self, order: ByteOrder) -> (bytes: Vec<u8>)
        ensures
            bytes@ == self.image(order),
            bytes.len() == DELETE_ATTR_SIZE,
    {
        let mut bytes: Vec<u8> = Vec::new();
        write_u32(&mut bytes, self.map_fd, order);
        write_u32(&mut bytes, 0, order);
        write_u64(&mut bytes, self.key, order);
        assert(bytes@ =~= self.image(order));
        bytes
    }
}

impl BpfObjGetAttr {
    /// The block as the kernel reads it.
    pub open spec fn image(self, order: ByteOrder) -> Seq<u8> {
        bytes_of(self.pathname as int, 8, order) + bytes_of(self.bpf_fd as int, 4, order)
            + bytes_of(self.file_flags as int, 4, order)
    }

    /// Writes the block as the kernel reads it.
    pub fn to_bytes(&self, order: ByteOrder) -> (bytes: Vec<u8>)
        ensures
            bytes@ == self.image(order),
            bytes.len() == OBJ_GET_ATTR_SIZE,
    {
        let mut bytes: Vec<u8> = Vec::new();
        write_u64(&mut bytes, self.pathname, order);
        write_u32(&mut bytes, self.bpf_fd, order);
        write_u32(&mut bytes, self.file_flags, order);
        assert(bytes@ =~= self.image(order));
        bytes
    }
}

/// The key or the value of an entry of the thread-id map: a thread id or a
/// worker id as four bytes.
pub fn map_word(value: u32, order: ByteOrder) -> (bytes: Vec<u8>)
    ensures
        bytes@ == bytes_of(value as int, 4, order),
        bytes.len() == 4,
{
    let mut bytes: Vec<u8> = Vec::new();
    write_u32(&mut bytes, value, order);
    assert(bytes@ =~= bytes_of(value as int, 4, order));
    bytes
}

/// What a failed registration says.
pub open spec fn register_failure(tid: u32, worker_id: u32, cause: Seq<char>) -> Seq<char> {
    "failed to register worker tid="@ + decimal(tid as nat) + " id="@ + decimal(worker_id as nat)
        + ": "@ + cause
}

/// What a failed unregistration says.
pub open spec fn unregister_failure(tid: u32, cause: Seq<char>) -> Seq<char> {
    "failed to unregister worker tid="@ + decimal(tid as nat) + ": "@ + cause
}

/// What a map that could not be opened says.
pub open spec fn open_failure_text(map: Seq<char>, path: Seq<char>, cause: Seq<char>) -> Seq<
    char,
> {
    "failed to open "@ + map + " at "@ + path + ": "@ + cause
}

/// The outcome of registering the thread `tid` as worker `worker_id`, from
/// the status the system call returned and the system's words for its error.
/// A negative status is a failure.
pub fn register_outcome(status: i64, tid: u32, worker_id: u32, cause: &str) -> (outcome: Result<
    (),
    Error,
>)
    ensures
        outcome is Ok <==> status >= 0,
        outcome matches Err(error) ==> error matches Error::Registration(message) && message@
            == register_failure(tid, worker_id, cause@),
{
    if status >= 0 {
        return Ok(());
    }
    let mut message = String::from_str("failed to register worker tid=");
    push_decimal(&mut message, tid as u64);
    message.append(" id=");
    push_decimal(&mut message, worker_id as u64);
    message.append(": ");
    message.append(cause);
    assert(message@ =~= register_failure(tid, worker_id, cause@));
    Err(Error::Registration(message))
}

/// The outcome of unregistering the thread `tid`, from the status the system
/// call returned, its error number and the system's words for it. A negative
/// status is a failure, unless the error says that the thread was not
/// registered: a worker that is gone already is as good as unregistered.
pub fn unregister_outcome(status: i64, errno: Option<i32>, tid: u32, cause: &str) -> (outcome:
    Result<(), Error>)
    ensures
        outcome is Ok <==> status >= 0 || errno == Some(ENOENT),
        outcome matches Err(error) ==> error matches Error::Registration(message) && message@
            == unregister_failure(tid, cause@),
{
    if status >= 0 {
        return Ok(());
    }
    match errno {
        Some(code) => {
            if code == ENOENT {
                return Ok(());
            }
        },
        None => {},
    }
    let mut message = String::from_str("failed to unregister worker tid=");
    push_decimal(&mut message, tid as u64);
    message.append(": ");
    message.append(cause);
    assert(message@ =~= unregister_failure(tid, cause@));
    Err(Error::Registration(message))
}

/// The error for a pinned map that could not be opened: `map` names the map,
/// `path` is where it was looked for, `cause` the system's words.
pub fn open_failure(map: &str, path: &str, cause: &str) -> (error: Error)
    ensures
        error matches Error::BpfMap(message) && message@ == open_failure_text(
            map@,
            path@,
            cause@,
        ),
{
    let mut message = String::from_str("failed to open ");
    message.append(map);
    message.append(" at ");
    message.append(path);
    message.append(": ");
    message.append(cause);
    assert(message@ =~= open_failure_text(map@, path@, cause@));
    Error::BpfMap(message)
}

/// What the kernel scheduler counts.
#[derive(Clone, Copy, Debug, PartialEq, Eq, Structural)]
pub struct SchedulerStats {
    /// Hints emitted.
    pub hints: u64,
    /// Hints dropped because the ring was full.
    pub dropped: u64,
    /// Escalations carried out.
    pub escalations: u64,
    /// Escalations held back by a critical section or a missing consent.
    pub blocked: u64,
    /// Scheduler ticks.
    pub ticks: u64,
}

impl SchedulerStats {
    /// The record that `bytes` hold: five 64-bit counters in a row. Fewer
    /// than 40 bytes hold no record and read as all zero.
    pub open spec fn decoded(bytes: Seq<u8>, order: ByteOrder) -> SchedulerStats {
        if bytes.len() >= STATS_SIZE {
            SchedulerStats {
                hints: u64_at(bytes, 0, order) as u64,
                dropped: u64_at(bytes, 8, order) as u64,
                escalations: u64_at(bytes, 16, order) as u64,
                blocked: u64_at(bytes, 24, order) as u64,
                ticks: u64_at(bytes, 32, order) as u64,
            }
        } else {
            SchedulerStats { hints: 0, dropped: 0, escalations: 0, blocked: 0, ticks: 0 }
        }
    }

    /// The line that reports the counters.
    pub open spec fn line(self) -> Seq<char> {
        "stats: ticks="@ + decimal(self.ticks as nat) + " hints="@ + decimal(self.hints as nat)
            + " dropped="@ + decimal(self.dropped as nat) + " escalations="@ + decimal(
            self.escalations as nat,
        ) + " blocked="@ + decimal(self.blocked as nat)
    }

    /// Reads the statistics record from a value of the statistics map.
    pub fn parse(data: &[u8], order: ByteOrder) -> (stats: SchedulerStats)
        ensures
            stats == SchedulerStats::decoded(data@, order),
    {
        if data.len() >= STATS_SIZE {
            SchedulerStats {
                hints: read_u64(data, 0, order),
                dropped: read_u64(data, 8, order),
                escalations: read_u64(data, 16, order),
                blocked: read_u64(data, 24, order),
                ticks: read_u64(data, 32, order),
            }
        } else {
            SchedulerStats { hints: 0, dropped: 0, escalations: 0, blocked: 0, ticks: 0 }
        }
    }

    /// The counters as one line of text.
    pub fn summary(&self) -> (text: String)
        ensures
            text@ == self.line(),
    {
        let mut text = String::from_str("stats: ticks=");
        push_decimal(&mut text, self.ticks);
        text.append(" hints=");
        push_decimal(&mut text, self.hints);
        text.append(" dropped=");
        push_decimal(&mut text, self.dropped);
        text.append(" escalations=");
        push_decimal(&mut text, self.escalations);
        text.append(" blocked=");
        push_decimal(&mut text, self.blocked);
        assert(text@ =~= self.line());
        text
    }
}

} // verus!
