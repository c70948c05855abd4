//! What can go wrong while a runtime is set up.

use vstd::prelude::*;
use vstd::string::StringExecFns;
use crate::text::{decimal, push_decimal};

verus! {

/// A failure reported to the caller that set a worker or the runtime up.
///
/// Steady-state trouble (lost hints, a ring that cannot be read) never shows
/// up here: it is visible in counters and in defensive mode only.
#[derive(Debug)]
pub enum Error {
    /// A kernel map is absent or could not be opened.
    BpfMap(String),
    /// The control block could not be mapped into memory.
    Mmap(String),
    /// The kernel refused to register or unregister a worker.
    Registration(String),
    /// The hint ring could not be read.
    RingBuffer(String),
    /// The worker id is not an index into the control-block map.
    InvalidWorker(u32),
    /// The runtime has not been initialised.
    NotInitialized,
    /// The operation is not available.
    NotSupported(String),
}

impl Error {
    /// What the error says.
    pub open spec fn text(self) -> Seq<char> {
        match self {
            Error::BpfMap(detail) => "BPF map error: "@ + detail@,
            Error::Mmap(detail) => "mmap failed: "@ + detail@,
            Error::Registration(detail) => "worker registration failed: "@ + detail@,
            Error::RingBuffer(detail) => "ring buffer error: "@ + detail@,
            Error::InvalidWorker(id) => "invalid worker ID: "@ + decimal(id as nat),
            Error::NotInitialized => "runtime not initialized"@,
            Error::NotSupported(detail) => "operation not supported: "@ + detail@,
        }
    }

    /// The error as a line of text for people.
    pub fn message(&self) -> (message: String)
        ensures
            message@ == self.text(),
    {
        match self {
            Error::BpfMap(detail) => String::from_str("BPF map error: ").concat(detail.as_str()),
            Error::Mmap(detail) => String::from_str("mmap failed: ").concat(detail.as_str()),
            Error::Registration(detail) => String::from_str("worker registration failed: ").concat(
                detail.as_str(),
            ),
            Error::RingBuffer(detail) => String::from_str("ring buffer error: ").concat(
                detail.as_str(),
            ),
            Error::InvalidWorker(id) => {
                let mut message = String::from_str("invalid worker ID: ");
                push_decimal(&mut message, *id as u64);
                message
            },
            Error::NotInitialized => String::from_str("runtime not initialized"),
            Error::NotSupported(detail) => String::from_str("operation not supported: ").concat(
                detail.as_str(),
            ),
        }
    }
}

/// The result of an operation that can fail with [`Error`].
pub type Result<T> = std::result::Result<T, Error>;

} // verus!
