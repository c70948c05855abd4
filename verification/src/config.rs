//! Compile-time limits shared by the kernel scheduler and the runtimes.

use vstd::prelude::*;

verus! {

/// Number of control-block slots; worker ids are indices in `[0, MAX_WORKERS)`.
pub const MAX_WORKERS: u32 = 1024;

/// Default time slice handed to a worker, in nanoseconds (5 ms).
pub const DEFAULT_SLICE_NS: u64 = 5_000_000;

/// Time a worker may leave a hint unanswered before the kernel may escalate,
/// in nanoseconds (100 ms).
pub const GRACE_PERIOD_NS: u64 = 100_000_000;

/// Capacity of the hint ring in bytes (256 KiB).
pub const RINGBUF_SIZE: u32 = 262_144;

/// Largest advisory priority a runtime can publish.
pub const MAX_PRIORITY: u32 = 1000;

/// Priority a freshly initialised control block carries.
pub const DEFAULT_PRIORITY: u32 = 500;

/// Largest pressure level the kernel reports.
pub const MAX_PRESSURE: u32 = 100;

/// Forced yields granted by one entry into defensive mode unless configured.
pub const DEFAULT_DEFENSIVE_YIELDS: u64 = 100;

/// Ring poll timeout in milliseconds unless configured.
pub const DEFAULT_POLL_TIMEOUT_MS: u64 = 1;

} // verus!
