//! Pool allocation kinds and the kernel allocator marker.  Allocation
//! itself is pure delegation to the host pool and runs outside this crate;
//! the buffer type in `vsb` owns what the allocator hands out.

use vstd::prelude::*;

verus! {

/// The host pool a block is carved from.
#[derive(Copy, Clone, PartialEq, Eq, Structural, Debug)]
pub enum PoolType {
    NonPagedPool,
    NonPagedPoolExecute,
}

/// Marker for the global kernel allocator; the delegation to the host pool
/// lives with the host bindings.
pub struct KernelAlloc;

} // verus!
