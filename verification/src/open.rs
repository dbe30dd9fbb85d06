//! Opening an existing allocation: the order of the operating system calls, the checks applied to
//! the header, and what each result decides.
//!
//! The caller performs the action that a step returns, reports its result as the next event, and
//! stops at `Finish` or `Fail`.

use vstd::prelude::*;
use crate::header::{
    AllocationHeader, MAJOR_VERSION, OpenMode, ShmError, mapping_len, mapping_len_spec, mode_fits,
    total_size,
};

verus! {

/// Where the opening of an allocation stands.
#[derive(Clone, Copy)]
pub enum OpenPhase {
    /// Opening the shared memory object, without creating it.
    Opening,
    /// Mapping just the leading data size field of the object `fd`.
    MappingHeader { fd: i32 },
    /// Reading the data size from that mapping.
    ReadingSize { fd: i32 },
    /// The size is acceptable; mapping the whole allocation.
    MappingAll { fd: i32, data_size: usize },
    /// Reading the major version from the whole mapping.
    ReadingVersion { fd: i32, data_size: usize },
    /// Finished or failed; nothing more is done.
    Done,
}

/// The result of the last call, as the caller observed it.
pub enum OpenEvent {
    /// `shm_open` returned `fd`; `errno` is the error number it left.
    Opened { fd: i32, errno: i32 },
    /// Mapping the data size field succeeded (`ok`) or failed with `errno`.
    HeaderMapped { ok: bool, errno: i32 },
    /// The header states `data_size` bytes of data.
    DataSizeRead { data_size: usize },
    /// Mapping the whole allocation succeeded (`ok`) or failed with `errno`.
    AllMapped { ok: bool, errno: i32 },
    /// The header states major version `major`.
    MajorVersionRead { major: u8 },
}

/// What the caller does next.
pub enum OpenAction {
    /// Open the shared memory object under the name for reading and writing, without creating it.
    Open,
    /// Map the leading data size field of the object `fd`.
    MapHeader { fd: i32 },
    /// Read the data size from the mapped field.
    ReadDataSize,
    /// Unmap the data size field, then map `len` bytes of the object `fd`.
    MapAll { fd: i32, len: usize },
    /// Read the major version from the whole mapping.
    ReadMajorVersion,
    /// The allocation is open as `fd`, mapped whole, and holds `data_size` bytes of data.
    Finish { fd: i32, data_size: usize },
    /// Opening failed.
    Fail { error: ShmError },
}

/// The decisions taken while opening an allocation in `mode`, where the header and lock take
/// `overhead` bytes.
pub struct OpenMachine {
    pub phase: OpenPhase,
    pub mode: OpenMode,
    pub overhead: usize,
}

impl OpenMachine {
    /// The machine in `phase`, all else unchanged.
    pub open spec fn at(self, phase: OpenPhase) -> OpenMachine {
        OpenMachine { phase, mode: self.mode, overhead: self.overhead }
    }

    /// `event` is the result of the action this machine asked for last.
    pub open spec fn expects(self, event: OpenEvent) -> bool {
        match (self.phase, event) {
            (OpenPhase::Opening, OpenEvent::Opened { .. }) => true,
            (OpenPhase::MappingHeader { .. }, OpenEvent::HeaderMapped { .. }) => true,
            (OpenPhase::ReadingSize { .. }, OpenEvent::DataSizeRead { .. }) => true,
            (OpenPhase::MappingAll { .. }, OpenEvent::AllMapped { .. }) => true,
            (OpenPhase::ReadingVersion { .. }, OpenEvent::MajorVersionRead { .. }) => true,
            _ => false,
        }
    }

    /// The next state and action after `event`.
    pub open spec fn next(self, event: OpenEvent) -> (OpenMachine, OpenAction) {
        let fail = |error: ShmError| (self.at(OpenPhase::Done), OpenAction::Fail { error });
        match (self.phase, event) {
            (OpenPhase::Opening, OpenEvent::Opened { fd, errno }) => {
                if fd < 0 {
                    fail(ShmError::Os(errno))
                } else {
                    (self.at(OpenPhase::MappingHeader { fd }), OpenAction::MapHeader { fd })
                }
            },
            (OpenPhase::MappingHeader { fd }, OpenEvent::HeaderMapped { ok, errno }) => {
                if !ok {
                    fail(ShmError::Os(errno))
                } else {
                    (self.at(OpenPhase::ReadingSize { fd }), OpenAction::ReadDataSize)
                }
            },
            (OpenPhase::ReadingSize { fd }, OpenEvent::DataSizeRead { data_size }) => {
                match mapping_len_spec(self.mode, self.overhead, data_size) {
                    Err(error) => fail(error),
                    Ok(len) => (
                        self.at(OpenPhase::MappingAll { fd, data_size }),
                        OpenAction::MapAll { fd, len },
                    ),
                }
            },
            (OpenPhase::MappingAll { fd, data_size }, OpenEvent::AllMapped { ok, errno }) => {
                if !ok {
                    fail(ShmError::Os(errno))
                } else {
                    (
                        self.at(OpenPhase::ReadingVersion { fd, data_size }),
                        OpenAction::ReadMajorVersion,
                    )
                }
            },
            (OpenPhase::ReadingVersion { fd, data_size }, OpenEvent::MajorVersionRead { major }) => {
                if major != MAJOR_VERSION {
                    fail(ShmError::MajorVersionMismatch { major })
                } else {
                    (self.at(OpenPhase::Done), OpenAction::Finish { fd, data_size })
                }
            },
            _ => (self, OpenAction::Open),
        }
    }

    /// The machine is sound: a sized open expects an allocation that fits in memory, and once
    /// a data size has been accepted it is the one a sized open expects.
    pub open spec fn wf(self) -> bool {
        &&& mode_fits(self.mode, self.overhead)
        &&& match self.phase {
            OpenPhase::MappingAll { data_size, .. } => self.mode matches OpenMode::Sized(
                expected,
            ) ==> data_size == expected,
            OpenPhase::ReadingVersion { data_size, .. } => self.mode matches OpenMode::Sized(
                expected,
            ) ==> data_size == expected,
            _ => true,
        }
    }

    /// Starts opening an allocation in `mode`, where the header and lock take `overhead` bytes.
    pub fn start(mode: OpenMode, overhead: usize) -> (r: (OpenMachine, OpenAction))
        requires
            mode_fits(mode, overhead),
        ensures
            r.0 == (OpenMachine { phase: OpenPhase::Opening, mode, overhead }),
            r.0.wf(),
            r.1 == OpenAction::Open,
    {
        (OpenMachine { phase: OpenPhase::Opening, mode, overhead }, OpenAction::Open)
    }

    /// Takes in the result of the last action and decides the next one.
    pub fn step(self, event: OpenEvent) -> (r: (OpenMachine, OpenAction))
        requires
            self.wf(),
            self.expects(event),
        ensures
            r == self.next(event),
            r.0.wf(),
            r.0.mode == self.mode,
            r.0.overhead == self.overhead,
    {
        proof {
            lemma_open_step_keeps_mode(self, event);
        }
        let overhead = self.overhead;
        match (self.phase, event) {
            (OpenPhase::Opening, OpenEvent::Opened { fd, errno }) => {
                if fd < 0 {
                    (
                        OpenMachine { phase: OpenPhase::Done, mode: self.mode, overhead },
                        OpenAction::Fail { error: ShmError::Os(errno) },
                    )
                } else {
                    (
                        OpenMachine { phase: OpenPhase::MappingHeader { fd }, mode: self.mode, overhead },
                        OpenAction::MapHeader { fd },
                    )
                }
            },
            (OpenPhase::MappingHeader { fd }, OpenEvent::HeaderMapped { ok, errno }) => {
                if !ok {
                    (
                        OpenMachine { phase: OpenPhase::Done, mode: self.mode, overhead },
                        OpenAction::Fail { error: ShmError::Os(errno) },
                    )
                } else {
                    (
                        OpenMachine { phase: OpenPhase::ReadingSize { fd }, mode: self.mode, overhead },
                        OpenAction::ReadDataSize,
                    )
                }
            },
            (OpenPhase::ReadingSize { fd }, OpenEvent::DataSizeRead { data_size }) => {
                match mapping_len(&self.mode, overhead, data_size) {
                    Err(error) => (
                        OpenMachine { phase: OpenPhase::Done, mode: self.mode, overhead },
                        OpenAction::Fail { error },
                    ),
                    Ok(len) => (
                        OpenMachine {
                            phase: OpenPhase::MappingAll { fd, data_size },
                            mode: self.mode,
                            overhead,
                        },
                        OpenAction::MapAll { fd, len },
                    ),
                }
            },
            (OpenPhase::MappingAll { fd, data_size }, OpenEvent::AllMapped { ok, errno }) => {
                if !ok {
                    (
                        OpenMachine { phase: OpenPhase::Done, mode: self.mode, overhead },
                        OpenAction::Fail { error: ShmError::Os(errno) },
                    )
                } else {
                    (
                        OpenMachine {
                            phase: OpenPhase::ReadingVersion { fd, data_size },
                            mode: self.mode,
                            overhead,
                        },
                        OpenAction::ReadMajorVersion,
                    )
                }
            },
            (OpenPhase::ReadingVersion { fd, data_size }, OpenEvent::MajorVersionRead { major }) => {
                if major != MAJOR_VERSION {
                    (
                        OpenMachine { phase: OpenPhase::Done, mode: self.mode, overhead },
                        OpenAction::Fail { error: ShmError::MajorVersionMismatch { major } },
                    )
                } else {
                    (
                        OpenMachine { phase: OpenPhase::Done, mode: self.mode, overhead },
                        OpenAction::Finish { fd, data_size },
                    )
                }
            },
            _ => (self, OpenAction::Open),
        }
    }
}

/// Whether a consumer waiting for an allocation tries again after `error`: only when the
/// allocation does not exist yet, that is when the operating system reported `not_found`.
/// Every other error is passed on.
pub fn should_retry(error: &ShmError, not_found: i32) -> (r: bool)
    ensures
        r == (*error == ShmError::Os(not_found)),
{
    match error {
        ShmError::Os(code) => *code == not_found,
        _ => false,
    }
}

/// Every step keeps the open mode and the overhead it started with: a sized open stays a sized
/// open for the same size until it finishes or fails, and soundness is kept.
pub proof fn lemma_open_step_keeps_mode(m: OpenMachine, event: OpenEvent)
    requires
        m.wf(),
        m.expects(event),
    ensures
        m.next(event).0.mode == m.mode,
        m.next(event).0.overhead == m.overhead,
        m.next(event).0.wf(),
{
}

/// A sized open for `expected` bytes of data never maps or finishes with any other data size:
/// reading another size fails with a size mismatch; mapping always covers the header and exactly
/// `expected` bytes; finishing reports `expected` bytes.
pub proof fn lemma_sized_open_only_accepts_its_size(m: OpenMachine, event: OpenEvent, expected: usize)
    requires
        m.wf(),
        m.expects(event),
        m.mode == OpenMode::Sized(expected),
    ensures
        (event matches OpenEvent::DataSizeRead { data_size } && data_size != expected) ==> (
        m.next(event).1 matches OpenAction::Fail { error } && error is SizeMismatch),
        m.next(event).1 matches OpenAction::MapAll { len, .. } ==> len == m.overhead + expected,
        m.next(event).1 matches OpenAction::Finish { data_size, .. } ==> data_size == expected,
{
}

/// An allocation as a publisher creates it opens for a consumer: opened for data of its own
/// size, or dynamically, with every call succeeding, the consumer maps the whole allocation and
/// finishes with the data size of the header.
pub proof fn lemma_created_allocation_opens(
    overhead: usize,
    data_size: usize,
    dynamic: bool,
    fd: i32,
    errno: i32,
)
    requires
        total_size(overhead, data_size) <= usize::MAX,
        fd >= 0,
    ensures
        ({
            let header = AllocationHeader::initial_spec(data_size);
            let mode = if dynamic {
                OpenMode::Dynamic
            } else {
                OpenMode::Sized(data_size)
            };
            let m0 = OpenMachine { phase: OpenPhase::Opening, mode, overhead };
            let (m1, a1) = m0.next(OpenEvent::Opened { fd, errno });
            let (m2, a2) = m1.next(OpenEvent::HeaderMapped { ok: true, errno });
            let (m3, a3) = m2.next(OpenEvent::DataSizeRead { data_size: header.data_size });
            let (m4, a4) = m3.next(OpenEvent::AllMapped { ok: true, errno });
            let (m5, a5) = m4.next(OpenEvent::MajorVersionRead { major: header.major_version });
            &&& a1 == OpenAction::MapHeader { fd }
            &&& a2 == OpenAction::ReadDataSize
            &&& a3 == OpenAction::MapAll { fd, len: (overhead + data_size) as usize }
            &&& a4 == OpenAction::ReadMajorVersion
            &&& a5 == OpenAction::Finish { fd, data_size }
            &&& m5.phase == OpenPhase::Done
        }),
{
}

/// A sized open refuses an allocation whose header states another data size, and reports both
/// total sizes.
pub proof fn lemma_size_mismatch_refused(m: OpenMachine, fd: i32, expected: usize, data_size: usize)
    requires
        m.wf(),
        m.phase == (OpenPhase::ReadingSize { fd }),
        m.mode == OpenMode::Sized(expected),
        data_size != expected,
    ensures
        m.next(OpenEvent::DataSizeRead { data_size }) == (
            m.at(OpenPhase::Done),
            OpenAction::Fail {
                error: ShmError::SizeMismatch {
                    expected: (m.overhead + expected) as usize,
                    found: (m.overhead + data_size) as u128,
                },
            },
        ),
{
}

/// Any open refuses an allocation made under another major version of the layout.
pub proof fn lemma_major_version_mismatch_refused(m: OpenMachine, fd: i32, data_size: usize, major: u8)
    requires
        m.phase == (OpenPhase::ReadingVersion { fd, data_size }),
        major != MAJOR_VERSION,
    ensures
        m.next(OpenEvent::MajorVersionRead { major }) == (
            m.at(OpenPhase::Done),
            OpenAction::Fail { error: ShmError::MajorVersionMismatch { major } },
        ),
{
}

} // verus!
