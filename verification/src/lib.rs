//! Userspace side of a kernel-guided cooperative scheduler.
//!
//! A kernel scheduler and a set of language runtimes share one control block
//! per worker thread. The kernel raises a sequence number to ask a worker to
//! yield; the worker answers at its next checkpoint by acknowledging the
//! sequence. This crate holds the rules of that protocol as sequential state
//! machines over plain values, each with a contract that Verus checks. The
//! code that maps the shared memory, talks to the kernel and runs threads
//! drives these state machines and publishes what they decide.

pub mod config;
pub mod map_names;
pub mod common;
pub mod error;
pub mod scb;
pub mod worker;
pub mod critical;
pub mod wire;
pub mod ringbuf;
pub mod time;
pub mod checkpoint;
pub mod runtime;
pub mod adapter;
pub mod text;
pub mod metrics;
pub mod executor;
pub mod histogram;
pub mod layout;
pub mod bpf_maps;
pub mod tokio_support;

pub use checkpoint::checkpoint_sync;
pub use common::{HintReason, MorpheusHint};
pub use critical::{critical_section, CriticalGuard};
pub use error::Error;
pub use runtime::{Builder, Runtime};
pub use scb::{MorpheusScb, ScbHandle};
