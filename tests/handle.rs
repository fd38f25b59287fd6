use os_handles::handle::{
    AsHandle, BorrowedHandle, CloseHandle, DuplicateRequest, HandleDuplication, HandleOrInvalid,
    HandleOrNull, OwnedHandle, RawHandle, DUPLICATE_SAME_ACCESS, INVALID_HANDLE_VALUE,
    NULL_HANDLE,
};
use os_handles::os_error::OsError;

/// Stands in for the system's close call and counts what it is asked to close.
struct CloseCounter {
    closed: Vec<RawHandle>,
}

impl CloseCounter {
    fn new() -> CloseCounter {
        CloseCounter { closed: Vec::new() }
    }

    fn perform(&mut self, call: CloseHandle) {
        self.closed.push(call.handle);
    }
}

#[test]
fn null_check_passes_values_other_than_null() {
    for raw in [1usize, 4, 42, 0x7fff_ffff, INVALID_HANDLE_VALUE] {
        let owned = OwnedHandle::try_from(HandleOrNull::from_raw_handle(raw)).unwrap();
        assert_eq!(owned.as_raw_handle(), raw);
    }
}

#[test]
fn null_check_fails_on_null_without_closing() {
    let mut counter = CloseCounter::new();
    let r = OwnedHandle::try_from(HandleOrNull::from_raw_handle(NULL_HANDLE));
    match r {
        Ok(owned) => counter.perform(owned.close()),
        Err(e) => assert_eq!(
            e.message(),
            "A HandleOrNull could not be converted to a handle because it was null"
        ),
    }
    assert!(counter.closed.is_empty());
}

#[test]
fn invalid_check_passes_values_other_than_invalid() {
    for raw in [NULL_HANDLE, 1, 42, usize::MAX - 1] {
        let owned = OwnedHandle::try_from(HandleOrInvalid::from_raw_handle(raw)).unwrap();
        assert_eq!(owned.as_raw_handle(), raw);
    }
}

#[test]
fn invalid_check_fails_on_invalid_without_closing() {
    let mut counter = CloseCounter::new();
    let r = OwnedHandle::try_from(HandleOrInvalid::from_raw_handle(INVALID_HANDLE_VALUE));
    match r {
        Ok(owned) => counter.perform(owned.close()),
        Err(e) => assert_eq!(
            e.message(),
            "A HandleOrInvalid could not be converted to a handle because it was INVALID_HANDLE_VALUE"
        ),
    }
    assert!(counter.closed.is_empty());
}

#[test]
fn into_raw_handle_never_closes() {
    let counter = CloseCounter::new();
    let owned = OwnedHandle::from_raw_handle(42);
    assert_eq!(owned.into_raw_handle(), 42);
    assert_eq!(counter.closed.len(), 0);
}

#[test]
fn close_asks_once_for_the_owned_handle() {
    let mut counter = CloseCounter::new();
    let owned = OwnedHandle::from_raw_handle(42);
    counter.perform(owned.close());
    assert_eq!(counter.closed, vec![42]);
}

#[test]
fn each_owner_is_closed_once() {
    let mut counter = CloseCounter::new();
    let owners: Vec<OwnedHandle> = (1..=5usize).map(OwnedHandle::from_raw_handle).collect();
    let mut kept = Vec::new();
    for (i, owned) in owners.into_iter().enumerate() {
        if i % 2 == 0 {
            counter.perform(owned.close());
        } else {
            kept.push(owned.into_raw_handle());
        }
    }
    assert_eq!(counter.closed, vec![1, 3, 5]);
    assert_eq!(kept, vec![2, 4]);
}

#[test]
fn borrowing_lends_the_owned_handle() {
    let counter = CloseCounter::new();
    let owned = OwnedHandle::from_raw_handle(42);
    let views: Vec<BorrowedHandle<'_>> = (0..16).map(|_| owned.as_handle()).collect();
    for view in &views {
        assert_eq!(view.as_raw_handle(), owned.as_raw_handle());
        assert_eq!(view.as_handle().as_raw_handle(), 42);
    }
    let by_ref = &owned;
    assert_eq!(by_ref.as_handle().as_raw_handle(), 42);
    let boxed = Box::new(OwnedHandle::from_raw_handle(7));
    assert_eq!(boxed.as_handle().as_raw_handle(), 7);
    assert!(counter.closed.is_empty());
}

#[test]
fn borrow_raw_keeps_sentinel_values() {
    assert_eq!(BorrowedHandle::borrow_raw(NULL_HANDLE).as_raw_handle(), NULL_HANDLE);
    assert_eq!(
        BorrowedHandle::borrow_raw(INVALID_HANDLE_VALUE).as_raw_handle(),
        INVALID_HANDLE_VALUE
    );
}

#[test]
fn duplication_asks_the_system_for_handles_other_than_null() {
    let owned = OwnedHandle::from_raw_handle(42);
    match owned.try_clone() {
        HandleDuplication::Pending(request) => {
            assert_eq!(
                request,
                DuplicateRequest {
                    source: 42,
                    access: 0,
                    inherit: false,
                    options: DUPLICATE_SAME_ACCESS,
                }
            );
            let copy = request.complete(Ok(100)).unwrap();
            assert_eq!(copy.as_raw_handle(), 100);
            assert_ne!(copy.as_raw_handle(), owned.as_raw_handle());
            let mut counter = CloseCounter::new();
            counter.perform(copy.close());
            counter.perform(owned.close());
            assert_eq!(counter.closed, vec![100, 42]);
        }
        HandleDuplication::Ready(_) => panic!("a handle other than null needs the system"),
    }
}

#[test]
fn duplication_passes_on_the_system_error() {
    let borrowed = BorrowedHandle::borrow_raw(9);
    match borrowed.try_clone_to_owned() {
        HandleDuplication::Pending(request) => {
            let e = request.complete(Err(OsError::from_raw_os_error(6))).unwrap_err();
            assert_eq!(e.raw_os_error(), 6);
        }
        HandleDuplication::Ready(_) => panic!("a handle other than null needs the system"),
    }
}

#[test]
fn null_handle_duplicates_without_the_system() {
    let borrowed = BorrowedHandle::borrow_raw(NULL_HANDLE);
    match borrowed.try_clone_to_owned() {
        HandleDuplication::Ready(copy) => assert_eq!(copy.as_raw_handle(), NULL_HANDLE),
        HandleDuplication::Pending(_) => panic!("the null handle needs no system call"),
    }
}

#[test]
fn duplicate_carries_access_inheritance_and_options() {
    let borrowed = BorrowedHandle::borrow_raw(3);
    match borrowed.duplicate(0x1f, true, 0) {
        HandleDuplication::Pending(request) => {
            assert_eq!(request.source, 3);
            assert_eq!(request.access, 0x1f);
            assert!(request.inherit);
            assert_eq!(request.options, 0);
        }
        HandleDuplication::Ready(_) => panic!("a handle other than null needs the system"),
    }
}
