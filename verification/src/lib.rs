//! Verified core of `tism`, an inter-process shared memory interface with one publisher and any
//! number of consumers per allocation.
//!
//! The operating system calls (opening, sizing and mapping shared memory, the process-shared
//! read/write lock, the clock) are made by the surrounding program. Everything it decides on the
//! way lives here: the layout values written into a new allocation, the checks a consumer applies
//! before trusting an allocation, the order of the calls and the handling of each call's result,
//! change tracking between writes and reads, time stamps, names, raw byte transfer for allocations
//! of dynamic size, and the lazily allocated publisher handle.

pub mod time;
pub mod tracker;
pub mod header;
pub mod create;
pub mod open;
pub mod lock;
pub mod name;
pub mod dynamic;
pub mod lazy;
