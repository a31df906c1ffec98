//! A minimal staging buffer for the earliest phase of kernel bring-up: a
//! sequential, unchecked, typed memory writer anchored at an explicit base
//! address, together with a host-addressable memory region that stands in for
//! the target machine's raw memory.

pub mod kernel_vec;
pub mod laws;
pub mod region;
