//! The results of the calls on an allocation's process-shared read/write lock and its clock.

use vstd::prelude::*;
use crate::header::ShmError;

verus! {

/// The result of taking the lock for writing or reading, or of reading the clock when the write
/// lock is taken: any nonzero return is a failure, reported with the error number `errno` that
/// the call left behind.
pub fn check_lock_call(ret: i32, errno: i32) -> (r: Result<(), ShmError>)
    ensures
        r is Ok <==> ret == 0,
        r is Err ==> r == Err::<(), ShmError>(ShmError::Os(errno)),
{
    if ret != 0 {
        Err(ShmError::Os(errno))
    } else {
        Ok(())
    }
}

/// The result of releasing the lock: the call returns the error number itself, zero on success.
pub fn check_unlock(code: i32) -> (r: Result<(), ShmError>)
    ensures
        r is Ok <==> code == 0,
        r is Err ==> r == Err::<(), ShmError>(ShmError::Os(code)),
{
    if code != 0 {
        Err(ShmError::Os(code))
    } else {
        Ok(())
    }
}

} // verus!
