//! Raw byte transfer for allocations whose data size is known only at run time.

use vstd::prelude::*;
use crate::header::ShmError;

verus! {

/// Checks that `given` bytes of data fit an allocation holding exactly `allocated` bytes.
pub fn check_write_len(given: usize, allocated: usize) -> (r: Result<(), ShmError>)
    ensures
        r is Ok <==> given == allocated,
        r is Err ==> r == Err::<(), ShmError>(ShmError::DataLenMismatch { given, allocated }),
{
    if given != allocated {
        Err(ShmError::DataLenMismatch { given, allocated })
    } else {
        Ok(())
    }
}

/// Overwrites the data region `dest` with `data`, of the same length.
pub fn copy_into(dest: &mut [u8], data: &[u8])
    requires
        old(dest)@.len() == data@.len(),
    ensures
        final(dest)@ == data@,
{
    let n = data.len();
    let mut i: usize = 0;
    while i < n
        invariant
            n == data@.len(),
            dest@.len() == n,
            i <= n,
            forall|j: int| 0 <= j < i ==> dest@[j] == data@[j],
        decreases n - i,
    {
        dest[i] = data[i];
        i = i + 1;
    }
    assert(dest@ == data@);
}

/// A copy of the data region `region`.
pub fn copy_out(region: &[u8]) -> (r: Vec<u8>)
    ensures
        r@ == region@,
{
    let mut out: Vec<u8> = Vec::new();
    let n = region.len();
    let mut i: usize = 0;
    while i < n
        invariant
            n == region@.len(),
            i <= n,
            out@ == region@.subrange(0, i as int),
        decreases n - i,
    {
        out.push(region[i]);
        assert(region@.subrange(0, i + 1) == region@.subrange(0, i as int).push(region@[i as int]));
        i = i + 1;
    }
    assert(region@.subrange(0, n as int) == region@);
    out
}

} // verus!
