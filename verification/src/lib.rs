//! Userspace controller for a sampling profiler of live Python processes.
//!
//! The kernel side (a BPF program driven by per-CPU perf events) produces
//! fixed-layout sample records and a shared symbol table.  This library holds
//! the verified userspace core: the version-offset catalog and its
//! configuration text format, the byte-level codecs for everything shared
//! with the kernel, sample decoding and symbol resolution, the aggregated
//! profile with its folded rendering, and the controller decisions
//! (registration, perf-event parameters, map updates).  Everything that
//! touches the outside world — BPF syscalls, perf events, process
//! introspection, files and signals — lives in the surrounding binary and
//! exchanges plain values with this library.

pub mod arch;
pub mod catalog;
pub mod offsets;
pub mod perf_event;
pub mod process_info;
pub mod processor;
pub mod profile;
pub mod py_perf;
pub mod report;
pub mod sample;
pub mod stats;
pub mod symbols;
pub mod system;
pub mod text;
pub mod version;

pub use stats::handle_lost_events;
pub use stats::Stats;
