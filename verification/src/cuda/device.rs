use vstd::prelude::*;
use crate::error::CUDA_SUCCESS;

verus! {

/// Pairs the value a native call produced with the call's status: the
/// value on success, the status code otherwise.
pub fn wrap<T>(value: T, status: u32) -> (r: Result<T, u32>)
    ensures
        r == (if status == CUDA_SUCCESS {
            Ok::<T, u32>(value)
        } else {
            Err::<T, u32>(status)
        }),
{
    if status == CUDA_SUCCESS {
        Ok(value)
    } else {
        Err(status)
    }
}

/// A device, by its native handle.
#[derive(Clone, Copy, Debug, PartialEq, Eq, Structural)]
pub struct CuDevice {
    pub device: i32,
}

} // verus!
