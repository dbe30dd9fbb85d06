//! Creating an allocation: the order of the operating system calls, and what each result decides.
//!
//! The caller performs the action that a step returns, reports its result as the next event, and
//! stops at `Finish` or `Fail`.

use vstd::prelude::*;
use crate::header::{AllocationHeader, ShmError, total_size};

verus! {

/// Where the creation of an allocation stands.
#[derive(Clone, Copy)]
pub enum CreatePhase {
    /// Removing an allocation left under the same name by an earlier publisher.
    Unlinking,
    /// Opening the shared memory object with create and exclusive flags.
    Opening,
    /// Sizing the object opened as `fd`.
    Truncating { fd: i32 },
    /// Mapping the object into memory.
    Mapping { fd: i32 },
    /// The header has been written; initialising the process-shared lock.
    InitialisingLock { fd: i32 },
    /// Finished or failed; nothing more is done.
    Done,
}

/// The result of the last call, as the caller observed it.
pub enum CreateEvent {
    /// `shm_unlink` returned `ret`; `errno` is the error number it left.
    Unlinked { ret: i32, errno: i32 },
    /// `shm_open` returned `fd`; `errno` is the error number it left.
    Opened { fd: i32, errno: i32 },
    /// `ftruncate` returned `ret`; `errno` is the error number it left.
    Truncated { ret: i32, errno: i32 },
    /// `mmap` succeeded (`ok`) or failed with `errno`.
    Mapped { ok: bool, errno: i32 },
    /// Initialising the lock returned `code`, an error number or zero.
    LockInitialised { code: i32 },
}

/// What the caller does next.
pub enum CreateAction {
    /// Remove any shared memory object under the name.
    Unlink,
    /// Open a new shared memory object under the name, creating it exclusively.
    Open,
    /// Size the object `fd` to `len` bytes.
    Truncate { fd: i32, len: usize },
    /// Map `len` bytes of the object `fd`, shared, for reading and writing.
    MapShared { fd: i32, len: usize },
    /// Write `header` at the start of the mapping, then initialise the lock.
    Initialise { header: AllocationHeader },
    /// The allocation exists, open as `fd`, and is mapped with its lock ready.
    Finish { fd: i32 },
    /// Creation failed.
    Fail { error: ShmError },
}

/// The decisions taken while creating an allocation for `data_size` bytes of data, `len` bytes in
/// all. `missing` is the error number that means that no object exists under a name.
pub struct CreateMachine {
    pub phase: CreatePhase,
    pub len: usize,
    pub data_size: usize,
    pub missing: i32,
}

impl CreateMachine {
    /// The machine in `phase`, all else unchanged.
    pub open spec fn at(self, phase: CreatePhase) -> CreateMachine {
        CreateMachine { phase, len: self.len, data_size: self.data_size, missing: self.missing }
    }

    /// `event` is the result of the action this machine asked for last.
    pub open spec fn expects(self, event: CreateEvent) -> bool {
        match (self.phase, event) {
            (CreatePhase::Unlinking, CreateEvent::Unlinked { .. }) => true,
            (CreatePhase::Opening, CreateEvent::Opened { .. }) => true,
            (CreatePhase::Truncating { .. }, CreateEvent::Truncated { .. }) => true,
            (CreatePhase::Mapping { .. }, CreateEvent::Mapped { .. }) => true,
            (CreatePhase::InitialisingLock { .. }, CreateEvent::LockInitialised { .. }) => true,
            _ => false,
        }
    }

    /// The next state and action after `event`.
    pub open spec fn next(self, event: CreateEvent) -> (CreateMachine, CreateAction) {
        let fail = |errno: i32|
            (self.at(CreatePhase::Done), CreateAction::Fail { error: ShmError::Os(errno) });
        match (self.phase, event) {
            (CreatePhase::Unlinking, CreateEvent::Unlinked { ret, errno }) => {
                if ret != 0 && errno != self.missing {
                    fail(errno)
                } else {
                    (self.at(CreatePhase::Opening), CreateAction::Open)
                }
            },
            (CreatePhase::Opening, CreateEvent::Opened { fd, errno }) => {
                if fd < 0 {
                    fail(errno)
                } else {
                    (
                        self.at(CreatePhase::Truncating { fd }),
                        CreateAction::Truncate { fd, len: self.len },
                    )
                }
            },
            (CreatePhase::Truncating { fd }, CreateEvent::Truncated { ret, errno }) => {
                if ret < 0 {
                    fail(errno)
                } else {
                    (self.at(CreatePhase::Mapping { fd }), CreateAction::MapShared { fd, len: self.len })
                }
            },
            (CreatePhase::Mapping { fd }, CreateEvent::Mapped { ok, errno }) => {
                if !ok {
                    fail(errno)
                } else {
                    (
                        self.at(CreatePhase::InitialisingLock { fd }),
                        CreateAction::Initialise {
                            header: AllocationHeader::initial_spec(self.data_size),
                        },
                    )
                }
            },
            (CreatePhase::InitialisingLock { fd }, CreateEvent::LockInitialised { code }) => {
                if code != 0 {
                    fail(code)
                } else {
                    (self.at(CreatePhase::Done), CreateAction::Finish { fd })
                }
            },
            _ => (self, CreateAction::Unlink),
        }
    }

    /// Starts creating an allocation with `overhead` bytes of header and lock and `data_size`
    /// bytes of data. The first action removes a stale allocation of the same name.
    pub fn start(overhead: usize, data_size: usize, missing: i32) -> (r: (CreateMachine, CreateAction))
        requires
            total_size(overhead, data_size) <= usize::MAX,
        ensures
            r.0 == (CreateMachine {
                phase: CreatePhase::Unlinking,
                len: total_size(overhead, data_size) as usize,
                data_size,
                missing,
            }),
            r.1 == CreateAction::Unlink,
    {
        (
            CreateMachine { phase: CreatePhase::Unlinking, len: overhead + data_size, data_size, missing },
            CreateAction::Unlink,
        )
    }

    /// Takes in the result of the last action and decides the next one.
    pub fn step(self, event: CreateEvent) -> (r: (CreateMachine, CreateAction))
        requires
            self.expects(event),
        ensures
            r == self.next(event),
            r.0.len == self.len,
            r.0.data_size == self.data_size,
            r.0.missing == self.missing,
            r.1 matches CreateAction::Initialise { header } ==> header.data_size == self.data_size
                && header.total_writes == 0,
    {
        proof {
            lemma_create_step_keeps_sizes(self, event);
        }
        let len = self.len;
        let data_size = self.data_size;
        let missing = self.missing;
        let done = CreateMachine { phase: CreatePhase::Done, len, data_size, missing };
        match (self.phase, event) {
            (CreatePhase::Unlinking, CreateEvent::Unlinked { ret, errno }) => {
                if ret != 0 && errno != missing {
                    (done, CreateAction::Fail { error: ShmError::Os(errno) })
                } else {
                    (
                        CreateMachine { phase: CreatePhase::Opening, len, data_size, missing },
                        CreateAction::Open,
                    )
                }
            },
            (CreatePhase::Opening, CreateEvent::Opened { fd, errno }) => {
                if fd < 0 {
                    (done, CreateAction::Fail { error: ShmError::Os(errno) })
                } else {
                    (
                        CreateMachine { phase: CreatePhase::Truncating { fd }, len, data_size, missing },
                        CreateAction::Truncate { fd, len },
                    )
                }
            },
            (CreatePhase::Truncating { fd }, CreateEvent::Truncated { ret, errno }) => {
                if ret < 0 {
                    (done, CreateAction::Fail { error: ShmError::Os(errno) })
                } else {
                    (
                        CreateMachine { phase: CreatePhase::Mapping { fd }, len, data_size, missing },
                        CreateAction::MapShared { fd, len },
                    )
                }
            },
            (CreatePhase::Mapping { fd }, CreateEvent::Mapped { ok, errno }) => {
                if !ok {
                    (done, CreateAction::Fail { error: ShmError::Os(errno) })
                } else {
                    (
                        CreateMachine {
                            phase: CreatePhase::InitialisingLock { fd },
                            len,
                            data_size,
                            missing,
                        },
                        CreateAction::Initialise { header: AllocationHeader::initial(data_size) },
                    )
                }
            },
            (CreatePhase::InitialisingLock { fd }, CreateEvent::LockInitialised { code }) => {
                if code != 0 {
                    (done, CreateAction::Fail { error: ShmError::Os(code) })
                } else {
                    (done, CreateAction::Finish { fd })
                }
            },
            _ => (self, CreateAction::Unlink),
        }
    }
}

/// Every step keeps the total size, the data size and the not-found error number, and the header
/// that creation writes states that data size and counts no write yet: the initial value, stored
/// under the first write lock, becomes write number one.
pub proof fn lemma_create_step_keeps_sizes(m: CreateMachine, event: CreateEvent)
    requires
        m.expects(event),
    ensures
        m.next(event).0.len == m.len,
        m.next(event).0.data_size == m.data_size,
        m.next(event).0.missing == m.missing,
        m.next(event).1 matches CreateAction::Initialise { header } ==> (header.data_size
            == m.data_size && header.total_writes == 0 && header.major_version == 1),
        m.next(event).1 matches CreateAction::Truncate { len, .. } ==> len == m.len,
        m.next(event).1 matches CreateAction::MapShared { len, .. } ==> len == m.len,
{
}

/// When every call succeeds, creation unlinks, opens, sizes and maps the object at its full size,
/// writes the initial header for the data size, initialises the lock and finishes with the
/// object's descriptor. A stale allocation that is missing (`shm_unlink` failing with the
/// not-found error number) does not stop it.
pub proof fn lemma_create_succeeds(
    overhead: usize,
    data_size: usize,
    missing: i32,
    unlink_ret: i32,
    unlink_errno: i32,
    fd: i32,
    open_errno: i32,
    truncate_ret: i32,
    truncate_errno: i32,
    map_errno: i32,
)
    requires
        total_size(overhead, data_size) <= usize::MAX,
        unlink_ret == 0 || unlink_errno == missing,
        fd >= 0,
        truncate_ret >= 0,
    ensures
        ({
            let m0 = CreateMachine {
                phase: CreatePhase::Unlinking,
                len: (overhead + data_size) as usize,
                data_size,
                missing,
            };
            let (m1, a1) = m0.next(CreateEvent::Unlinked { ret: unlink_ret, errno: unlink_errno });
            let (m2, a2) = m1.next(CreateEvent::Opened { fd, errno: open_errno });
            let (m3, a3) = m2.next(CreateEvent::Truncated { ret: truncate_ret, errno: truncate_errno });
            let (m4, a4) = m3.next(CreateEvent::Mapped { ok: true, errno: map_errno });
            let (m5, a5) = m4.next(CreateEvent::LockInitialised { code: 0 });
            &&& a1 == CreateAction::Open
            &&& a2 == CreateAction::Truncate { fd, len: (overhead + data_size) as usize }
            &&& a3 == CreateAction::MapShared { fd, len: (overhead + data_size) as usize }
            &&& a4 == CreateAction::Initialise { header: AllocationHeader::initial_spec(data_size) }
            &&& a5 == CreateAction::Finish { fd }
            &&& m5.phase == CreatePhase::Done
        }),
{
}

/// A failed call ends creation: the machine reports the call's error number and asks for
/// nothing more.
pub proof fn lemma_create_failure_is_final(m: CreateMachine, event: CreateEvent)
    requires
        m.expects(event),
    ensures
        ({
            let (next, action) = m.next(event);
            (action is Fail) ==> (next.phase == CreatePhase::Done && forall|e: CreateEvent|
                !next.expects(e))
        }),
        ({
            let failed = |errno: i32| m.next(event).1 == (CreateAction::Fail { error: ShmError::Os(errno) });
            match event {
                CreateEvent::Unlinked { ret, errno } => ret != 0 && errno != m.missing ==> failed(errno),
                CreateEvent::Opened { fd, errno } => fd < 0 ==> failed(errno),
                CreateEvent::Truncated { ret, errno } => ret < 0 ==> failed(errno),
                CreateEvent::Mapped { ok, errno } => !ok ==> failed(errno),
                CreateEvent::LockInitialised { code } => code != 0 ==> failed(code),
            }
        }),
{
}

} // verus!
