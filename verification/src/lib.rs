//! A minimal machine-mode security monitor core for a RISC-V hart.
//!
//! The crate owns three tightly coupled pieces: a physical-memory frame
//! allocator together with the metadata heap it backs, the per-hart
//! register snapshot (`VCpu`) with its save/load context-switch
//! operations, and the enclave registry that owns those snapshots.  All
//! monitor state is explicit: it is built once by `coffer_init` and
//! passed by reference into every entry point, so the exactly-once
//! initialization of each subsystem is part of the verified contracts
//! rather than hidden global state.

pub mod coffer_call;
pub mod coffer_inst;
pub mod enclave;
pub mod enclave_id;
pub mod frame_alloc;
pub mod memory;
pub mod message_call;
pub mod sbi;
pub mod vcpu;
