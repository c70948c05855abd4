//! Names under which the kernel scheduler exposes its objects.

use vstd::prelude::*;

verus! {

/// Array of control blocks, keyed by worker id.
pub const SCB_MAP: &'static str = "scb_map";

/// Ring that carries the hint records.
pub const HINT_RINGBUF: &'static str = "hint_ringbuf";

/// Hash map from OS thread id to worker id.
pub const WORKER_TID_MAP: &'static str = "worker_tid_map";

/// Optional map holding the system-wide pressure reading.
pub const GLOBAL_PRESSURE_MAP: &'static str = "global_pressure_map";

/// Optional map holding the scheduler configuration.
pub const CONFIG_MAP: &'static str = "config_map";

} // verus!
