use tism::create::{CreateAction, CreateEvent, CreateMachine, CreatePhase};
use tism::dynamic::{check_write_len, copy_into, copy_out};
use tism::header::{
    AllocationHeader, MAJOR_VERSION, MINOR_VERSION, OpenMode, PATCH_VERSION, ShmError,
    check_major_version, mapping_len, shared_memory_size,
};
use tism::lazy::{self, LazyOwnedSharedMemory};
use tism::lock::{check_lock_call, check_unlock};
use tism::name::shm_name;
use tism::open::{OpenAction, OpenEvent, OpenMachine, should_retry};
use tism::time::TimeSpan;
use tism::tracker::ReadTracker;

const ENOENT: i32 = 2;
const OVERHEAD: usize = 96;

fn nanos(t: &TimeSpan) -> u128 {
    t.secs() as u128 * 1_000_000_000 + t.subsec_nanos() as u128
}

#[test]
fn timespec_is_read_as_seconds_and_nanoseconds() {
    let t = TimeSpan::from_timespec(12, 345).unwrap();
    assert_eq!(t.secs(), 12);
    assert_eq!(t.subsec_nanos(), 345);
}

#[test]
fn timespec_nanoseconds_carry_into_seconds() {
    let t = TimeSpan::from_timespec(1, 2_500_000_000).unwrap();
    assert_eq!(t.secs(), 3);
    assert_eq!(t.subsec_nanos(), 500_000_000);
}

#[test]
fn timespec_negative_seconds_wrap_beyond_range() {
    assert!(TimeSpan::from_timespec(-1, 0).is_none());
    assert!(TimeSpan::from_timespec(i64::MAX, 0).is_some());
    assert!(TimeSpan::from_timespec(i64::MAX, 1_000_000_000).is_none());
    assert!(TimeSpan::from_timespec(i64::MAX, 999_999_999).is_some());
}

#[test]
fn duration_since_borrows_a_second() {
    let earlier = TimeSpan::from_parts(10, 900_000_000);
    let later = TimeSpan::from_parts(12, 100_000_000);
    let d = later.duration_since(&earlier).unwrap();
    assert_eq!(d.secs(), 1);
    assert_eq!(d.subsec_nanos(), 200_000_000);
    assert!(earlier.duration_since(&later).is_none());
    let zero = earlier.duration_since(&earlier).unwrap();
    assert_eq!(nanos(&zero), 0);
}

#[test]
fn fresh_tracker_sees_initial_write_as_change() {
    let tracker = ReadTracker::new();
    assert_eq!(tracker.last_read_count(), 0);
    assert!(!tracker.has_changed(0));
    assert!(tracker.has_changed(1));
}

#[test]
fn read_clears_change_and_write_sets_it() {
    let mut tracker = ReadTracker::new();
    tracker.record_read(1, TimeSpan::from_parts(5, 0));
    assert!(!tracker.has_changed(1));
    assert!(tracker.has_changed(2));
    tracker.record_read(2, TimeSpan::from_parts(6, 0));
    assert!(!tracker.has_changed(2));
    assert_eq!(tracker.last_read_count(), 2);
}

#[test]
fn staleness_needs_a_read() {
    let mut tracker = ReadTracker::new();
    let now = TimeSpan::from_parts(100, 0);
    assert!(tracker.staleness(&now).is_none());
    tracker.record_read(1, TimeSpan::from_parts(97, 250_000_000));
    let stale = tracker.staleness(&now).unwrap();
    assert_eq!(stale.secs(), 2);
    assert_eq!(stale.subsec_nanos(), 750_000_000);
    assert!(tracker.staleness(&TimeSpan::from_parts(90, 0)).is_none());
}

#[test]
fn initial_header_carries_versions_and_no_writes() {
    let h = AllocationHeader::initial(4);
    assert_eq!(h.data_size, 4);
    assert_eq!(h.major_version, MAJOR_VERSION);
    assert_eq!(h.minor_version, MINOR_VERSION);
    assert_eq!(h.patch_version, PATCH_VERSION);
    assert_eq!(h.total_writes, 0);
    assert_eq!(MAJOR_VERSION, 1);
}

#[test]
fn total_size_is_checked() {
    assert_eq!(shared_memory_size(OVERHEAD, 4), Some(100));
    assert_eq!(shared_memory_size(usize::MAX, 1), None);
}

#[test]
fn sized_open_accepts_only_its_size() {
    assert!(mapping_len(&OpenMode::Sized(4), OVERHEAD, 4) == Ok(100));
    assert!(
        mapping_len(&OpenMode::Sized(4), OVERHEAD, 8)
            == Err(ShmError::SizeMismatch { expected: 100, found: 104 })
    );
}

#[test]
fn dynamic_open_accepts_any_mappable_size() {
    assert!(mapping_len(&OpenMode::Dynamic, OVERHEAD, 8) == Ok(104));
    assert!(
        mapping_len(&OpenMode::Dynamic, OVERHEAD, usize::MAX)
            == Err(ShmError::SizeOverflow { data_size: usize::MAX })
    );
}

#[test]
fn major_version_is_checked() {
    assert!(check_major_version(1) == Ok(()));
    assert!(check_major_version(2) == Err(ShmError::MajorVersionMismatch { major: 2 }));
}

#[test]
fn create_runs_every_call_in_order() {
    let (m, a) = CreateMachine::start(OVERHEAD, 4, ENOENT);
    assert!(matches!(a, CreateAction::Unlink));
    // The stale allocation is missing: not an error.
    let (m, a) = m.step(CreateEvent::Unlinked { ret: -1, errno: ENOENT });
    assert!(matches!(a, CreateAction::Open));
    let (m, a) = m.step(CreateEvent::Opened { fd: 7, errno: 0 });
    assert!(matches!(a, CreateAction::Truncate { fd: 7, len: 100 }));
    let (m, a) = m.step(CreateEvent::Truncated { ret: 0, errno: 0 });
    assert!(matches!(a, CreateAction::MapShared { fd: 7, len: 100 }));
    let (m, a) = m.step(CreateEvent::Mapped { ok: true, errno: 0 });
    match a {
        CreateAction::Initialise { header } => {
            assert_eq!(header.data_size, 4);
            assert_eq!(header.total_writes, 0);
        }
        _ => panic!("expected the header to be written"),
    }
    let (m, a) = m.step(CreateEvent::LockInitialised { code: 0 });
    assert!(matches!(a, CreateAction::Finish { fd: 7 }));
    assert!(matches!(m.phase, CreatePhase::Done));
}

#[test]
fn create_stops_at_the_first_failure() {
    let (m, _) = CreateMachine::start(OVERHEAD, 4, ENOENT);
    let (m, a) = m.step(CreateEvent::Unlinked { ret: -1, errno: 13 });
    assert!(matches!(a, CreateAction::Fail { error: ShmError::Os(13) }));
    assert!(matches!(m.phase, CreatePhase::Done));

    let (m, _) = CreateMachine::start(OVERHEAD, 4, ENOENT);
    let (m, _) = m.step(CreateEvent::Unlinked { ret: 0, errno: 0 });
    let (_, a) = m.step(CreateEvent::Opened { fd: -1, errno: 17 });
    assert!(matches!(a, CreateAction::Fail { error: ShmError::Os(17) }));

    let (m, _) = CreateMachine::start(OVERHEAD, 4, ENOENT);
    let (m, _) = m.step(CreateEvent::Unlinked { ret: 0, errno: 0 });
    let (m, _) = m.step(CreateEvent::Opened { fd: 3, errno: 0 });
    let (m, _) = m.step(CreateEvent::Truncated { ret: 0, errno: 0 });
    let (m, _) = m.step(CreateEvent::Mapped { ok: true, errno: 0 });
    let (_, a) = m.step(CreateEvent::LockInitialised { code: 11 });
    assert!(matches!(a, CreateAction::Fail { error: ShmError::Os(11) }));
}

#[test]
fn created_allocation_opens_sized_and_dynamic() {
    for mode in [OpenMode::Sized(4), OpenMode::Dynamic] {
        let (m, a) = OpenMachine::start(mode, OVERHEAD);
        assert!(matches!(a, OpenAction::Open));
        let (m, a) = m.step(OpenEvent::Opened { fd: 5, errno: 0 });
        assert!(matches!(a, OpenAction::MapHeader { fd: 5 }));
        let (m, a) = m.step(OpenEvent::HeaderMapped { ok: true, errno: 0 });
        assert!(matches!(a, OpenAction::ReadDataSize));
        let (m, a) = m.step(OpenEvent::DataSizeRead { data_size: 4 });
        assert!(matches!(a, OpenAction::MapAll { fd: 5, len: 100 }));
        let (m, a) = m.step(OpenEvent::AllMapped { ok: true, errno: 0 });
        assert!(matches!(a, OpenAction::ReadMajorVersion));
        let (_, a) = m.step(OpenEvent::MajorVersionRead { major: MAJOR_VERSION });
        assert!(matches!(a, OpenAction::Finish { fd: 5, data_size: 4 }));
    }
}

#[test]
fn open_refuses_foreign_allocations() {
    let (m, _) = OpenMachine::start(OpenMode::Sized(4), OVERHEAD);
    let (_, a) = m.step(OpenEvent::Opened { fd: -1, errno: ENOENT });
    match a {
        OpenAction::Fail { error } => assert!(should_retry(&error, ENOENT)),
        _ => panic!("expected a failure"),
    }

    let (m, _) = OpenMachine::start(OpenMode::Sized(4), OVERHEAD);
    let (m, _) = m.step(OpenEvent::Opened { fd: 5, errno: 0 });
    let (m, _) = m.step(OpenEvent::HeaderMapped { ok: true, errno: 0 });
    let (_, a) = m.step(OpenEvent::DataSizeRead { data_size: 8 });
    match a {
        OpenAction::Fail { error } => {
            assert!(error == ShmError::SizeMismatch { expected: 100, found: 104 });
            assert!(!should_retry(&error, ENOENT));
        }
        _ => panic!("expected a failure"),
    }

    let (m, _) = OpenMachine::start(OpenMode::Dynamic, OVERHEAD);
    let (m, _) = m.step(OpenEvent::Opened { fd: 5, errno: 0 });
    let (m, _) = m.step(OpenEvent::HeaderMapped { ok: true, errno: 0 });
    let (m, _) = m.step(OpenEvent::DataSizeRead { data_size: 8 });
    let (m, _) = m.step(OpenEvent::AllMapped { ok: true, errno: 0 });
    let (_, a) = m.step(OpenEvent::MajorVersionRead { major: 2 });
    assert!(matches!(
        a,
        OpenAction::Fail { error: ShmError::MajorVersionMismatch { major: 2 } }
    ));
}

#[test]
fn retry_only_when_missing() {
    assert!(should_retry(&ShmError::Os(ENOENT), ENOENT));
    assert!(!should_retry(&ShmError::Os(13), ENOENT));
    assert!(!should_retry(&ShmError::MajorVersionMismatch { major: 3 }, ENOENT));
}

#[test]
fn lock_results() {
    assert!(check_lock_call(0, 99) == Ok(()));
    assert!(check_lock_call(-1, 35) == Err(ShmError::Os(35)));
    assert!(check_unlock(0) == Ok(()));
    assert!(check_unlock(1) == Err(ShmError::Os(1)));
}

#[test]
fn names_end_in_nul() {
    assert_eq!(shm_name(b"my_shm", false), b"my_shm\0".to_vec());
    assert_eq!(shm_name(b"my_shm", true), b"/my_shm\0".to_vec());
    assert_eq!(shm_name(b"", false), vec![0u8]);
}

#[test]
fn dynamic_write_needs_exact_length() {
    assert!(check_write_len(2, 2) == Ok(()));
    assert!(check_write_len(3, 2) == Err(ShmError::DataLenMismatch { given: 3, allocated: 2 }));
}

#[test]
fn dynamic_read_gives_back_what_was_written() {
    let mut region = [0u8; 2];
    copy_into(&mut region, &[0xBE, 0xEF]);
    assert_eq!(region, [0xBE, 0xEF]);
    assert_eq!(copy_out(&region), vec![0xBE, 0xEF]);
    assert_eq!(copy_out(&[]), Vec::<u8>::new());
}

#[test]
fn lazy_handle_allocates_once() {
    let mut shm: LazyOwnedSharedMemory<u32, &str> = lazy::create("my_lazy_shm");
    assert!(!shm.has_allocated());
    assert_eq!(shm.pending_name(), Some(&"my_lazy_shm"));
    shm.finish_allocation(7);
    assert!(shm.has_allocated());
    assert_eq!(shm.pending_name(), None);
    assert_eq!(shm.strict(), Some(7));

    let unallocated: LazyOwnedSharedMemory<u32, &str> = lazy::create("never");
    assert_eq!(unallocated.strict(), None);
}
