//! The header that heads every allocation, and the checks a consumer applies to it.

use vstd::prelude::*;

verus! {

/// Major version of the allocation layout. Allocations of another major version are refused.
pub const MAJOR_VERSION: u8 = 1;

/// Minor version of the allocation layout. A differing minor version is accepted.
pub const MINOR_VERSION: u8 = 0;

/// Patch version of the allocation layout. A differing patch version is accepted.
pub const PATCH_VERSION: u16 = 0;

/// The plain fields at the start of an allocation, as the process that creates it writes them.
/// The lock, the time stamp and the data itself follow them in shared memory.
pub struct AllocationHeader {
    /// Size in bytes of the data that the allocation holds.
    pub data_size: usize,
    pub major_version: u8,
    pub minor_version: u8,
    pub patch_version: u16,
    /// Times the lock was taken for writing; the initial value counts as the first.
    pub total_writes: u64,
}

impl AllocationHeader {
    /// The header of a new allocation for `data_size` bytes of data, before its first write.
    pub open spec fn initial_spec(data_size: usize) -> AllocationHeader {
        AllocationHeader {
            data_size,
            major_version: MAJOR_VERSION,
            minor_version: MINOR_VERSION,
            patch_version: PATCH_VERSION,
            total_writes: 0,
        }
    }

    /// The header of a new allocation for `data_size` bytes of data, before its first write.
    pub fn initial(data_size: usize) -> (h: AllocationHeader)
        ensures
            h == AllocationHeader::initial_spec(data_size),
            h.data_size == data_size,
            h.major_version == MAJOR_VERSION,
            h.minor_version == MINOR_VERSION,
            h.patch_version == PATCH_VERSION,
            h.total_writes == 0,
    {
        AllocationHeader {
            data_size,
            major_version: MAJOR_VERSION,
            minor_version: MINOR_VERSION,
            patch_version: PATCH_VERSION,
            total_writes: 0,
        }
    }
}

/// A new allocation, of any data size, starts with no writes counted (its initial value becomes
/// the first) and with the versions of this layout.
pub proof fn lemma_initial_header(data_size: usize)
    ensures
        AllocationHeader::initial_spec(data_size).data_size == data_size,
        AllocationHeader::initial_spec(data_size).total_writes == 0,
        AllocationHeader::initial_spec(data_size).major_version == 1,
        AllocationHeader::initial_spec(data_size).minor_version == MINOR_VERSION,
        AllocationHeader::initial_spec(data_size).patch_version == PATCH_VERSION,
{
}

/// How a consumer opens an allocation.
#[derive(Clone, Copy)]
pub enum OpenMode {
    /// For a value of a known type, whose size in bytes is given.
    Sized(usize),
    /// For raw data of whatever size the allocation's header states.
    Dynamic,
}

/// Why an operation on an allocation failed.
#[derive(PartialEq, Eq, Structural)]
pub enum ShmError {
    /// A call into the operating system failed with this error number.
    Os(i32),
    /// The allocation's size is not the size expected. Both are total sizes in bytes, header
    /// included.
    SizeMismatch { expected: usize, found: u128 },
    /// The allocation's header states a data size that cannot be mapped in this address space.
    SizeOverflow { data_size: usize },
    /// Raw data of `given` bytes was offered to an allocation holding `allocated` bytes.
    DataLenMismatch { given: usize, allocated: usize },
    /// The allocation was made under another major version of the layout.
    MajorVersionMismatch { major: u8 },
}

/// The total size of an allocation, `overhead` bytes of header and lock followed by `data_size`
/// bytes of data.
pub open spec fn total_size(overhead: usize, data_size: usize) -> int {
    overhead + data_size
}

/// The total size of an allocation, `overhead` bytes of header and lock followed by `data_size`
/// bytes of data; `None` when it does not fit in a `usize`.
pub fn shared_memory_size(overhead: usize, data_size: usize) -> (r: Option<usize>)
    ensures
        r is Some <==> total_size(overhead, data_size) <= usize::MAX,
        r matches Some(n) ==> n == total_size(overhead, data_size),
{
    overhead.checked_add(data_size)
}

/// Whether a header stating `data_size` bytes of data is acceptable under `mode`, and if so how
/// many bytes of shared memory must be mapped to reach all of it.
pub open spec fn mapping_len_spec(mode: OpenMode, overhead: usize, data_size: usize) -> Result<
    usize,
    ShmError,
> {
    match mode {
        OpenMode::Sized(expected) => if data_size == expected {
            Ok(total_size(overhead, data_size) as usize)
        } else {
            Err(
                ShmError::SizeMismatch {
                    expected: total_size(overhead, expected) as usize,
                    found: total_size(overhead, data_size) as u128,
                },
            )
        },
        OpenMode::Dynamic => if total_size(overhead, data_size) <= usize::MAX {
            Ok(total_size(overhead, data_size) as usize)
        } else {
            Err(ShmError::SizeOverflow { data_size })
        },
    }
}

/// A consumer's open mode is sound when the allocation of the expected size fits in memory.
pub open spec fn mode_fits(mode: OpenMode, overhead: usize) -> bool {
    mode matches OpenMode::Sized(expected) ==> total_size(overhead, expected) <= usize::MAX
}

/// Checks the data size stated in an allocation's header against the open mode: a sized open
/// accepts only the size it expects, a dynamic one any size it can map. On success, the number of
/// bytes to map.
pub fn mapping_len(mode: &OpenMode, overhead: usize, data_size: usize) -> (r: Result<usize, ShmError>)
    requires
        mode_fits(*mode, overhead),
    ensures
        r == mapping_len_spec(*mode, overhead, data_size),
{
    match mode {
        OpenMode::Sized(expected) => {
            if data_size == *expected {
                Ok(overhead + data_size)
            } else {
                Err(
                    ShmError::SizeMismatch {
                        expected: overhead + *expected,
                        found: overhead as u128 + data_size as u128,
                    },
                )
            }
        },
        OpenMode::Dynamic => match overhead.checked_add(data_size) {
            Some(len) => Ok(len),
            None => Err(ShmError::SizeOverflow { data_size }),
        },
    }
}

/// A sized open accepts a header exactly when it states the expected data size, and then maps
/// header and data in full; otherwise it reports both total sizes. A dynamic open accepts any data
/// size whose total fits in a `usize`.
pub proof fn lemma_mapping_len(mode: OpenMode, overhead: usize, data_size: usize)
    requires
        mode_fits(mode, overhead),
    ensures
        mode matches OpenMode::Sized(expected) ==> (
            (mapping_len_spec(mode, overhead, data_size) is Ok <==> data_size == expected)
            && (data_size != expected ==> mapping_len_spec(mode, overhead, data_size) == Err::<usize, ShmError>(
                ShmError::SizeMismatch {
                    expected: (overhead + expected) as usize,
                    found: (overhead + data_size) as u128,
                },
            ))),
        mode is Dynamic ==> (mapping_len_spec(mode, overhead, data_size) is Ok <==> overhead
            + data_size <= usize::MAX),
        mapping_len_spec(mode, overhead, data_size) matches Ok(len) ==> len == overhead + data_size,
{
}

/// Checks the major version stated in an allocation's header.
pub fn check_major_version(found: u8) -> (r: Result<(), ShmError>)
    ensures
        r is Ok <==> found == MAJOR_VERSION,
        r is Err ==> r == Err::<(), ShmError>(ShmError::MajorVersionMismatch { major: found }),
{
    if found != MAJOR_VERSION {
        Err(ShmError::MajorVersionMismatch { major: found })
    } else {
        Ok(())
    }
}

} // verus!
