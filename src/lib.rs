//! Building blocks for a global memory allocator: whole-page mapping requests
//! for the operating system, and a lock-guarded cell for allocator state.

pub mod exclusive;
pub mod page_source;
pub mod units;
