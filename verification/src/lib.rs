//! Guest-side bridges to a host that owns the heap and the diagnostics sinks.
//!
//! The guest keeps no allocator state and no log buffer. Every heap request
//! and every character of diagnostics is one call across the guest/host
//! boundary, and this crate decides which calls are made, with which
//! arguments and in which order. The calls are handed out as values; the
//! embedding performs them.
//!
//! - [`allocator`]: the allocation bridge, [`ExternAllocator`].
//! - [`stream`]: the diagnostic streams, [`Panic`] and [`DebugLog`].
//! - [`fault`]: the fatal-error bridge, [`panic_handler`].
//! - [`host`]: the host's primitives, as the values the bridges hand out.
//! - [`ledger`]: which blocks are outstanding after a run of calls.
//! - [`demo`]: a workload that exercises the bridges, [`run`].

pub mod allocator;
pub mod demo;
pub mod fault;
pub mod host;
pub mod layout;
pub mod ledger;
pub mod pointer;
pub mod stream;

pub use allocator::ExternAllocator;
pub use demo::run;
pub use fault::{panic_handler, FaultMessage, FaultRecord, Location};
pub use host::{Allocate, Deallocate, DebugCall, PanicCall, Resize};
pub use layout::Layout;
pub use pointer::HostPointer;
pub use stream::{DebugLog, DiagnosticStream, Panic};
