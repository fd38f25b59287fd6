//! Owned and borrowed handles.
//!
//! An `OwnedHandle` is the one owner of an open handle. Its ownership ends
//! in one of two ways: `close`, which yields the `CloseHandle` call that is
//! now owed to the system, or `into_raw_handle`, which hands the bare value
//! and the duty to close it to the caller. A `BorrowedHandle` is a view of a
//! handle that someone else owns; it never closes anything.
use core::marker::PhantomData;
use vstd::prelude::*;
use vstd::std_specs::convert::TryFromSpec;

use crate::os_error::OsError;

verus! {

/// A raw handle: a pointer-sized value.
pub type RawHandle = usize;

/// The null handle: the failure value of calls such as `CreateThread`.
pub const NULL_HANDLE: RawHandle = 0;

/// `INVALID_HANDLE_VALUE`, all bits set: the failure value of calls such as
/// `CreateFileW`. It is also the value of the current-process pseudo handle,
/// so an owned or borrowed handle may hold it.
pub const INVALID_HANDLE_VALUE: RawHandle = usize::MAX;

/// The `DuplicateHandle` option that keeps the access rights of the source.
pub const DUPLICATE_SAME_ACCESS: u32 = 0x2;

/// A borrowed handle, valid for the lifetime `'handle`.
///
/// It may hold the null handle (a detached console) and `INVALID_HANDLE_VALUE`
/// (the current-process pseudo handle). Copying it copies the view only.
#[derive(Debug, Clone, Copy)]
pub struct BorrowedHandle<'handle> {
    handle: RawHandle,
    _phantom: PhantomData<&'handle OwnedHandle>,
}

/// An owned handle: the one value responsible for closing it.
///
/// It may hold the null handle and `INVALID_HANDLE_VALUE`, as a borrowed
/// handle may. It has no copy or clone: a second owner comes only from
/// duplication by the system.
#[derive(Debug)]
pub struct OwnedHandle {
    handle: RawHandle,
}

/// The value of a call that reports failure with the null handle, not yet
/// checked. The one use of it is the conversion into an `OwnedHandle`,
/// which performs the check.
#[derive(Debug)]
pub struct HandleOrNull(OwnedHandle);

/// The value of a call that reports failure with `INVALID_HANDLE_VALUE`,
/// not yet checked. The one use of it is the conversion into an
/// `OwnedHandle`, which performs the check.
#[derive(Debug)]
pub struct HandleOrInvalid(OwnedHandle);

/// The error of converting a `HandleOrNull` that holds the null handle.
#[derive(Debug, Clone, Copy, PartialEq, Eq)]
pub struct NullHandleError(());

/// The error of converting a `HandleOrInvalid` that holds
/// `INVALID_HANDLE_VALUE`.
#[derive(Debug, Clone, Copy, PartialEq, Eq)]
pub struct InvalidHandleError(());

/// The `CloseHandle` call owed to the system for one handle whose owner gave
/// it up. The result of that call is of no interest: a failed close must not
/// replace an error that the caller is already reporting.
#[derive(Debug, Clone, Copy, PartialEq, Eq, Structural)]
pub struct CloseHandle {
    pub handle: RawHandle,
}

/// The `DuplicateHandle` call that a duplication needs: from the current
/// process into the current process.
#[derive(Debug, Clone, Copy, PartialEq, Eq, Structural)]
pub struct DuplicateRequest {
    pub source: RawHandle,
    pub access: u32,
    pub inherit: bool,
    pub options: u32,
}

/// Where a duplication stands after its first step.
#[derive(Debug)]
pub enum HandleDuplication {
    /// Done without the system: the null handle stands for itself.
    Ready(OwnedHandle),
    /// The system must make this call; `DuplicateRequest::complete` takes
    /// its answer.
    Pending(DuplicateRequest),
}

impl<'handle> View for BorrowedHandle<'handle> {
    type V = RawHandle;

    closed spec fn view(&self) -> RawHandle {
        self.handle
    }
}

impl View for OwnedHandle {
    type V = RawHandle;

    closed spec fn view(&self) -> RawHandle {
        self.handle
    }
}

impl HandleOrNull {
    /// The owned handle inside, checked or not.
    pub closed spec fn owned(self) -> OwnedHandle {
        self.0
    }
}

impl View for HandleOrNull {
    type V = RawHandle;

    open spec fn view(&self) -> RawHandle {
        self.owned()@
    }
}

impl HandleOrInvalid {
    /// The owned handle inside, checked or not.
    pub closed spec fn owned(self) -> OwnedHandle {
        self.0
    }
}

impl View for HandleOrInvalid {
    type V = RawHandle;

    open spec fn view(&self) -> RawHandle {
        self.owned()@
    }
}

impl NullHandleError {
    /// The one value of the error.
    pub closed spec fn spec_value() -> NullHandleError {
        NullHandleError(())
    }

    /// The text that describes the error.
    pub fn message(&self) -> (r: String)
        ensures
            r@ == "A HandleOrNull could not be converted to a handle because it was null"@,
    {
        String::from_str("A HandleOrNull could not be converted to a handle because it was null")
    }
}

impl InvalidHandleError {
    /// The one value of the error.
    pub closed spec fn spec_value() -> InvalidHandleError {
        InvalidHandleError(())
    }

    /// The text that describes the error.
    pub fn message(&self) -> (r: String)
        ensures
            r@
                == "A HandleOrInvalid could not be converted to a handle because it was INVALID_HANDLE_VALUE"@,
    {
        String::from_str(
            "A HandleOrInvalid could not be converted to a handle because it was INVALID_HANDLE_VALUE",
        )
    }
}

/// The id that a duplication of `source` yields once the system answered
/// `reply`: the null handle needs no call and stands for itself.
pub open spec fn duplicate_result(source: RawHandle, reply: Result<RawHandle, OsError>) -> Result<
    RawHandle,
    OsError,
> {
    if source == NULL_HANDLE {
        Ok(NULL_HANDLE)
    } else {
        reply
    }
}

/// The ids held by an outcome of duplication.
pub open spec fn owned_ids(r: Result<OwnedHandle, OsError>) -> Result<RawHandle, OsError> {
    match r {
        Ok(h) => Ok(h@),
        Err(e) => Err(e),
    }
}

/// The first step of duplicating `source` with the given access, inheritance
/// and options.
pub open spec fn duplication_step(
    d: HandleDuplication,
    source: RawHandle,
    access: u32,
    inherit: bool,
    options: u32,
) -> bool {
    if source == NULL_HANDLE {
        d matches HandleDuplication::Ready(h) && h@ == NULL_HANDLE
    } else {
        d == HandleDuplication::Pending(
            DuplicateRequest { source, access, inherit, options },
        )
    }
}

impl<'handle> BorrowedHandle<'handle> {
    /// A borrowed view of `handle`. The caller promises that `handle` is open
    /// and stays open for `'handle`; the value itself is not checked, and may
    /// be null or `INVALID_HANDLE_VALUE`.
    pub fn borrow_raw(handle: RawHandle) -> (r: BorrowedHandle<'handle>)
        ensures
            r@ == handle,
    {
        BorrowedHandle { handle, _phantom: PhantomData }
    }

    /// The raw handle.
    pub fn as_raw_handle(&self) -> (r: RawHandle)
        ensures
            r == self@,
    {
        self.handle
    }

    /// Starts a duplication into a new owned handle for the same object, with
    /// the same access rights, not inheritable.
    pub fn try_clone_to_owned(&self) -> (r: HandleDuplication)
        ensures
            duplication_step(r, self@, 0, false, DUPLICATE_SAME_ACCESS),
    {
        self.duplicate(0, false, DUPLICATE_SAME_ACCESS)
    }

    /// Starts a duplication with the given access, inheritance and options.
    ///
    /// Standard streams may hold the null handle, which the system would
    /// refuse to duplicate; it does no I/O and stands for itself, so it is
    /// duplicated without a system call.
    pub fn duplicate(&self, access: u32, inherit: bool, options: u32) -> (r: HandleDuplication)
        ensures
            duplication_step(r, self@, access, inherit, options),
    {
        let handle = self.as_raw_handle();
        if handle == NULL_HANDLE {
            return HandleDuplication::Ready(OwnedHandle::from_raw_handle(handle));
        }
        HandleDuplication::Pending(DuplicateRequest { source: handle, access, inherit, options })
    }
}

impl DuplicateRequest {
    /// Finishes the duplication with the system's answer: the new handle, or
    /// the error code of the failed call, passed on as it is.
    pub fn complete(self, reply: Result<RawHandle, OsError>) -> (r: Result<OwnedHandle, OsError>)
        ensures
            owned_ids(r) == reply,
    {
        match reply {
            Ok(handle) => Ok(OwnedHandle::from_raw_handle(handle)),
            Err(e) => Err(e),
        }
    }
}

impl OwnedHandle {
    /// Takes ownership of `handle`. The caller promises that `handle` is open
    /// and that nothing else will close it; the value is not checked.
    pub fn from_raw_handle(handle: RawHandle) -> (r: OwnedHandle)
        ensures
            r@ == handle,
    {
        OwnedHandle { handle }
    }

    /// The raw handle; ownership stays here.
    pub fn as_raw_handle(&self) -> (r: RawHandle)
        ensures
            r == self@,
    {
        self.handle
    }

    /// Gives up ownership without closing: the caller now owns the handle.
    pub fn into_raw_handle(self) -> (r: RawHandle)
        ensures
            r == self@,
    {
        self.handle
    }

    /// Gives up ownership for closing: the returned call must be made once.
    pub fn close(self) -> (r: CloseHandle)
        ensures
            r.handle == self@,
    {
        CloseHandle { handle: self.handle }
    }

    /// Starts a duplication into a second owned handle for the same object.
    pub fn try_clone(&self) -> (r: HandleDuplication)
        ensures
            duplication_step(r, self@, 0, false, DUPLICATE_SAME_ACCESS),
    {
        self.as_handle().try_clone_to_owned()
    }
}

impl HandleOrNull {
    /// Wraps the value of a call that reports failure with the null handle.
    /// The caller promises that `handle` is null or an open handle that
    /// nothing else will close.
    pub fn from_raw_handle(handle: RawHandle) -> (r: HandleOrNull)
        ensures
            r@ == handle,
    {
        HandleOrNull(OwnedHandle::from_raw_handle(handle))
    }
}

impl HandleOrInvalid {
    /// Wraps the value of a call that reports failure with
    /// `INVALID_HANDLE_VALUE`. The caller promises that `handle` is that
    /// value or an open handle that nothing else will close.
    pub fn from_raw_handle(handle: RawHandle) -> (r: HandleOrInvalid)
        ensures
            r@ == handle,
    {
        HandleOrInvalid(OwnedHandle::from_raw_handle(handle))
    }
}

impl TryFrom<HandleOrNull> for OwnedHandle {
    type Error = NullHandleError;

    /// The owned handle, unless it is null. A null value is dropped without
    /// a close: there is nothing to close, and closing would overwrite the
    /// error code of the call that returned it.
    fn try_from(handle_or_null: HandleOrNull) -> (r: Result<OwnedHandle, NullHandleError>) {
        let owned_handle = handle_or_null.0;
        if owned_handle.handle == NULL_HANDLE {
            Err(NullHandleError(()))
        } else {
            Ok(owned_handle)
        }
    }
}

impl vstd::std_specs::convert::TryFromSpecImpl<HandleOrNull> for OwnedHandle {
    open spec fn obeys_try_from_spec() -> bool {
        true
    }

    open spec fn try_from_spec(v: HandleOrNull) -> Result<OwnedHandle, NullHandleError> {
        if v@ == NULL_HANDLE {
            Err(NullHandleError::spec_value())
        } else {
            Ok(v.owned())
        }
    }
}

impl TryFrom<HandleOrInvalid> for OwnedHandle {
    type Error = InvalidHandleError;

    /// The owned handle, unless it is `INVALID_HANDLE_VALUE`. That value is
    /// dropped without a close, for the same reasons as a null one.
    fn try_from(handle_or_invalid: HandleOrInvalid) -> (r: Result<OwnedHandle, InvalidHandleError>) {
        let owned_handle = handle_or_invalid.0;
        if owned_handle.handle == INVALID_HANDLE_VALUE {
            Err(InvalidHandleError(()))
        } else {
            Ok(owned_handle)
        }
    }
}

impl vstd::std_specs::convert::TryFromSpecImpl<HandleOrInvalid> for OwnedHandle {
    open spec fn obeys_try_from_spec() -> bool {
        true
    }

    open spec fn try_from_spec(v: HandleOrInvalid) -> Result<OwnedHandle, InvalidHandleError> {
        if v@ == INVALID_HANDLE_VALUE {
            Err(InvalidHandleError::spec_value())
        } else {
            Ok(v.owned())
        }
    }
}

/// A value that can lend its handle.
pub trait AsHandle {
    /// The handle that `as_handle` lends.
    spec fn lent_handle(&self) -> RawHandle;

    /// Borrows the handle for the lifetime of `self`.
    fn as_handle(&self) -> (r: BorrowedHandle<'_>)
        ensures
            r@ == self.lent_handle(),
    ;
}

impl<'handle> AsHandle for BorrowedHandle<'handle> {
    open spec fn lent_handle(&self) -> RawHandle {
        self@
    }

    fn as_handle(&self) -> (r: BorrowedHandle<'_>) {
        *self
    }
}

impl AsHandle for OwnedHandle {
    open spec fn lent_handle(&self) -> RawHandle {
        self@
    }

    fn as_handle(&self) -> (r: BorrowedHandle<'_>) {
        // An owned and a borrowed handle have the same validity, and the view
        // lives no longer than `&self`.
        BorrowedHandle::borrow_raw(self.as_raw_handle())
    }
}

impl<T: AsHandle> AsHandle for &T {
    open spec fn lent_handle(&self) -> RawHandle {
        (**self).lent_handle()
    }

    fn as_handle(&self) -> (r: BorrowedHandle<'_>) {
        T::as_handle(self)
    }
}

impl<T: AsHandle> AsHandle for &mut T {
    open spec fn lent_handle(&self) -> RawHandle {
        (**self).lent_handle()
    }

    fn as_handle(&self) -> (r: BorrowedHandle<'_>) {
        T::as_handle(self)
    }
}

impl<T: AsHandle> AsHandle for std::rc::Rc<T> {
    open spec fn lent_handle(&self) -> RawHandle {
        (**self).lent_handle()
    }

    fn as_handle(&self) -> (r: BorrowedHandle<'_>) {
        (**self).as_handle()
    }
}

impl<T: AsHandle> AsHandle for std::sync::Arc<T> {
    open spec fn lent_handle(&self) -> RawHandle {
        (**self).lent_handle()
    }

    fn as_handle(&self) -> (r: BorrowedHandle<'_>) {
        (**self).as_handle()
    }
}

impl<T: AsHandle> AsHandle for Box<T> {
    open spec fn lent_handle(&self) -> RawHandle {
        (**self).lent_handle()
    }

    fn as_handle(&self) -> (r: BorrowedHandle<'_>) {
        (**self).as_handle()
    }
}

/// A value other than null passes the null check as an owned handle of the
/// same value; the null value fails it, and no handle comes out to close.
pub proof fn lemma_null_check(v: HandleOrNull)
    ensures
        v@ != NULL_HANDLE ==> (OwnedHandle::try_from_spec(v) matches Ok(h) && h@ == v@),
        v@ == NULL_HANDLE ==> OwnedHandle::try_from_spec(v) is Err,
{
}

/// A value other than `INVALID_HANDLE_VALUE` passes the invalid check as an
/// owned handle of the same value; `INVALID_HANDLE_VALUE` fails it, and no
/// handle comes out to close.
pub proof fn lemma_invalid_check(v: HandleOrInvalid)
    ensures
        v@ != INVALID_HANDLE_VALUE ==> (OwnedHandle::try_from_spec(v) matches Ok(h) && h@ == v@),
        v@ == INVALID_HANDLE_VALUE ==> OwnedHandle::try_from_spec(v) is Err,
{
}

/// Borrowing from an owned handle lends the very handle it owns.
pub proof fn lemma_borrow_keeps_handle(h: OwnedHandle)
    ensures
        h.lent_handle() == h@,
        (&h).lent_handle() == h@,
{
}

/// A duplication that starts as `d` and ends as `r` after the system's
/// answer `reply` yields `duplicate_result(source, reply)`. So where the
/// source is not null and the system answers with a new handle, the
/// duplicate holds that new handle, not the source.
pub proof fn lemma_duplicate_outcome(
    source: RawHandle,
    d: HandleDuplication,
    reply: Result<RawHandle, OsError>,
    r: Result<OwnedHandle, OsError>,
)
    requires
        duplication_step(d, source, 0, false, DUPLICATE_SAME_ACCESS),
        match d {
            HandleDuplication::Ready(h) => owned_ids(r) == Ok::<RawHandle, OsError>(h@),
            HandleDuplication::Pending(_) => owned_ids(r) == reply,
        },
    ensures
        owned_ids(r) == duplicate_result(source, reply),
        source != NULL_HANDLE && reply is Ok && reply->Ok_0 != source ==> (r matches Ok(h) && h@
            != source),
{
}

} // verus!
