use vstd::prelude::*;
use crate::cuda::device::wrap;
use crate::error::CUDA_SUCCESS;

verus! {

/// A device's primary context, by its native handle.
#[derive(Clone, Copy, Debug, PartialEq, Eq, Structural)]
pub struct CuPrimaryContext {
    pub context: usize,
}

/// Witness that a context has been made current: it exists only for a push
/// that succeeded, and whoever holds it owes the matching pop.
#[derive(Debug, PartialEq, Eq, Structural)]
pub struct CuPrimaryContextGuard {
    pub context: CuPrimaryContext,
}

impl CuPrimaryContextGuard {
    /// The guard for `context`, given the status with which the context was
    /// pushed: a guard where the push succeeded, the status where it did
    /// not.
    pub fn new(context: CuPrimaryContext, push_status: u32) -> (r: Result<
        CuPrimaryContextGuard,
        u32,
    >)
        ensures
            r == (if push_status == CUDA_SUCCESS {
                Ok::<CuPrimaryContextGuard, u32>(CuPrimaryContextGuard { context })
            } else {
                Err::<CuPrimaryContextGuard, u32>(push_status)
            }),
    {
        wrap(CuPrimaryContextGuard { context }, push_status)
    }
}

} // verus!
