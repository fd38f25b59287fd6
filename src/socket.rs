//! Owned and borrowed sockets.
//!
//! As with handles, an `OwnedSocket` ends either in `close`, which yields
//! the `closesocket` call owed to the system, or in `into_raw_socket`. A
//! socket wrapper never holds `INVALID_SOCKET`.
//!
//! Duplicating a socket takes several system calls, each chosen from the
//! answer to the one before. `BorrowedSocket::try_clone_to_owned` gives the
//! first call and a `SocketClone` state; `SocketClone::resume` takes each
//! answer and gives the next call or the result.
use core::marker::PhantomData;
use vstd::prelude::*;

use crate::os_error::OsError;

verus! {

/// A raw socket.
pub type RawSocket = u64;

/// `INVALID_SOCKET`, all bits set: never a socket.
pub const INVALID_SOCKET: RawSocket = u64::MAX;

/// `WSASocketW` flag: the socket supports overlapped I/O.
pub const WSA_FLAG_OVERLAPPED: u32 = 0x01;

/// `WSASocketW` flag: the socket is created not inheritable.
pub const WSA_FLAG_NO_HANDLE_INHERIT: u32 = 0x80;

/// Error code: an invalid argument.
pub const WSAEINVAL: i32 = 10022;

/// Error code: a protocol of the wrong type for the socket.
pub const WSAEPROTOTYPE: i32 = 10041;

/// A borrowed socket, valid for the lifetime `'socket`.
#[derive(Debug, Clone, Copy)]
pub struct BorrowedSocket<'socket> {
    socket: RawSocket,
    _phantom: PhantomData<&'socket OwnedSocket>,
}

/// An owned socket: the one value responsible for closing it.
#[derive(Debug)]
pub struct OwnedSocket {
    socket: RawSocket,
}

/// The `closesocket` call owed to the system for one socket whose owner gave
/// it up. Its result is of no interest.
#[derive(Debug, Clone, Copy, PartialEq, Eq, Structural)]
pub struct CloseSocket {
    pub socket: RawSocket,
}

/// A system call that socket duplication asks for.
#[derive(Debug, Clone, Copy, PartialEq, Eq, Structural)]
pub enum SocketCall {
    /// `WSADuplicateSocketW` of this socket for the current process, which
    /// fills the protocol record that the next `Open` uses.
    DuplicateInfo(RawSocket),
    /// `WSASocketW` from that protocol record, with these flags.
    Open(u32),
    /// `WSAGetLastError`.
    LastError,
    /// `SetHandleInformation` on this socket, clearing `HANDLE_FLAG_INHERIT`.
    ClearInherit(RawSocket),
    /// `closesocket` on this socket.
    Close(RawSocket),
}

/// The system's answer to a `SocketCall`.
#[derive(Debug, Clone, Copy, PartialEq, Eq, Structural)]
pub enum SocketReply {
    /// The answer to `DuplicateInfo` and `ClearInherit` where the call
    /// succeeded.
    Succeeded,
    /// The answer to `DuplicateInfo` and `ClearInherit` where the call
    /// failed, with its error.
    Failed(OsError),
    /// The answer to `Open`: the socket it returned, `INVALID_SOCKET` when
    /// it failed.
    Opened(RawSocket),
    /// The answer to `LastError`.
    Code(i32),
    /// The answer to `Close`.
    Closed,
}

/// Where a socket duplication stands: which answer it waits for.
#[derive(Debug, Clone, Copy, PartialEq, Eq, Structural)]
pub enum SocketClone {
    /// Waits for the protocol record of the source.
    Duplicating,
    /// Waits for a socket created not inheritable.
    OpeningNoInherit,
    /// That creation failed; waits for its error code.
    ReadingOpenError,
    /// The system lacks the not-inheritable flag; waits for a socket created
    /// without it.
    OpeningInheritable,
    /// That creation failed too; waits for its error code.
    ReadingLastError,
    /// Waits for the inherit flag of this new socket to be cleared.
    ClearingInherit(RawSocket),
    /// Waits for this new socket to be closed, then fails with the error.
    Closing(RawSocket, OsError),
}

/// One step of a socket duplication.
#[derive(Debug)]
pub enum SocketStep {
    /// The duplication goes on: make the call and resume the state.
    Call(SocketClone, SocketCall),
    /// The duplication is over.
    Done(Result<OwnedSocket, OsError>),
}

impl<'socket> BorrowedSocket<'socket> {
    #[verifier::type_invariant]
    spec fn inv(self) -> bool {
        self.socket != INVALID_SOCKET
    }
}

impl OwnedSocket {
    #[verifier::type_invariant]
    spec fn inv(self) -> bool {
        self.socket != INVALID_SOCKET
    }
}

impl<'socket> View for BorrowedSocket<'socket> {
    type V = RawSocket;

    closed spec fn view(&self) -> RawSocket {
        self.socket
    }
}

impl View for OwnedSocket {
    type V = RawSocket;

    closed spec fn view(&self) -> RawSocket {
        self.socket
    }
}

/// The ids held by an outcome of duplication.
pub open spec fn socket_ids(r: Result<OwnedSocket, OsError>) -> Result<RawSocket, OsError> {
    match r {
        Ok(s) => Ok(s@),
        Err(e) => Err(e),
    }
}

impl SocketClone {
    /// The state holds no `INVALID_SOCKET` as a new socket.
    pub open spec fn wf(self) -> bool {
        match self {
            SocketClone::ClearingInherit(s) => s != INVALID_SOCKET,
            _ => true,
        }
    }

    /// `reply` answers the call that this state waits on.
    pub open spec fn accepts(self, reply: SocketReply) -> bool {
        match self {
            SocketClone::Duplicating => (reply is Succeeded || reply is Failed),
            SocketClone::OpeningNoInherit => reply is Opened,
            SocketClone::ReadingOpenError => reply is Code,
            SocketClone::OpeningInheritable => reply is Opened,
            SocketClone::ReadingLastError => reply is Code,
            SocketClone::ClearingInherit(_) => (reply is Succeeded || reply is Failed),
            SocketClone::Closing(_, _) => reply is Closed,
        }
    }

    /// The next state and call after `reply`, or `None` where the
    /// duplication is over.
    pub open spec fn next(self, reply: SocketReply) -> Option<(SocketClone, SocketCall)> {
        match (self, reply) {
            (SocketClone::Duplicating, SocketReply::Succeeded) => Some(
                (
                    SocketClone::OpeningNoInherit,
                    SocketCall::Open(WSA_FLAG_OVERLAPPED | WSA_FLAG_NO_HANDLE_INHERIT),
                ),
            ),
            (SocketClone::OpeningNoInherit, SocketReply::Opened(s)) => if s == INVALID_SOCKET {
                Some((SocketClone::ReadingOpenError, SocketCall::LastError))
            } else {
                None
            },
            (SocketClone::ReadingOpenError, SocketReply::Code(c)) => if c == WSAEPROTOTYPE || c
                == WSAEINVAL {
                Some((SocketClone::OpeningInheritable, SocketCall::Open(WSA_FLAG_OVERLAPPED)))
            } else {
                None
            },
            (SocketClone::OpeningInheritable, SocketReply::Opened(s)) => if s == INVALID_SOCKET {
                Some((SocketClone::ReadingLastError, SocketCall::LastError))
            } else {
                Some((SocketClone::ClearingInherit(s), SocketCall::ClearInherit(s)))
            },
            (SocketClone::ClearingInherit(s), SocketReply::Failed(e)) => Some(
                (SocketClone::Closing(s, e), SocketCall::Close(s)),
            ),
            _ => None,
        }
    }

    /// The result where `reply` ends the duplication: the new socket or the
    /// error.
    pub open spec fn result(self, reply: SocketReply) -> Result<RawSocket, OsError> {
        match (self, reply) {
            (SocketClone::Duplicating, SocketReply::Failed(e)) => Err(e),
            (SocketClone::OpeningNoInherit, SocketReply::Opened(s)) => Ok(s),
            (SocketClone::ReadingOpenError, SocketReply::Code(c)) => Err(OsError { code: c }),
            (SocketClone::ReadingLastError, SocketReply::Code(c)) => Err(OsError { code: c }),
            (SocketClone::ClearingInherit(s), SocketReply::Succeeded) => Ok(s),
            (SocketClone::Closing(_, e), _) => Err(e),
            _ => arbitrary(),
        }
    }

    /// Whether `reply` answers the call that this state waits on.
    pub fn accepts_reply(&self, reply: &SocketReply) -> (r: bool)
        ensures
            r == self.accepts(*reply),
    {
        match self {
            SocketClone::Duplicating => matches!(reply, SocketReply::Succeeded | SocketReply::Failed(_)),
            SocketClone::OpeningNoInherit => matches!(reply, SocketReply::Opened(_)),
            SocketClone::ReadingOpenError => matches!(reply, SocketReply::Code(_)),
            SocketClone::OpeningInheritable => matches!(reply, SocketReply::Opened(_)),
            SocketClone::ReadingLastError => matches!(reply, SocketReply::Code(_)),
            SocketClone::ClearingInherit(_) => matches!(reply, SocketReply::Succeeded | SocketReply::Failed(_)),
            SocketClone::Closing(_, _) => matches!(reply, SocketReply::Closed),
        }
    }

    /// Takes the answer to the call that this state waits on.
    ///
    /// A socket created without the not-inheritable flag is made so
    /// afterwards; where that fails, the socket is closed before the error
    /// is returned.
    pub fn resume(self, reply: SocketReply) -> (r: SocketStep)
        requires
            self.wf(),
            self.accepts(reply),
        ensures
            match r {
                SocketStep::Call(s, c) => self.next(reply) == Some((s, c)) && s.wf(),
                SocketStep::Done(res) => self.next(reply) is None && socket_ids(res) == self.result(
                    reply,
                ),
            },
    {
        match (self, reply) {
            (SocketClone::Duplicating, SocketReply::Succeeded) => SocketStep::Call(
                SocketClone::OpeningNoInherit,
                SocketCall::Open(WSA_FLAG_OVERLAPPED | WSA_FLAG_NO_HANDLE_INHERIT),
            ),
            (SocketClone::Duplicating, SocketReply::Failed(e)) => SocketStep::Done(Err(e)),
            (SocketClone::OpeningNoInherit, SocketReply::Opened(s)) => {
                if s != INVALID_SOCKET {
                    SocketStep::Done(Ok(OwnedSocket::from_raw_socket(s)))
                } else {
                    SocketStep::Call(SocketClone::ReadingOpenError, SocketCall::LastError)
                }
            },
            (SocketClone::ReadingOpenError, SocketReply::Code(c)) => {
                if c != WSAEPROTOTYPE && c != WSAEINVAL {
                    SocketStep::Done(Err(OsError::from_raw_os_error(c)))
                } else {
                    SocketStep::Call(
                        SocketClone::OpeningInheritable,
                        SocketCall::Open(WSA_FLAG_OVERLAPPED),
                    )
                }
            },
            (SocketClone::OpeningInheritable, SocketReply::Opened(s)) => {
                if s == INVALID_SOCKET {
                    SocketStep::Call(SocketClone::ReadingLastError, SocketCall::LastError)
                } else {
                    SocketStep::Call(SocketClone::ClearingInherit(s), SocketCall::ClearInherit(s))
                }
            },
            (SocketClone::ReadingLastError, SocketReply::Code(c)) => SocketStep::Done(
                Err(OsError::from_raw_os_error(c)),
            ),
            (SocketClone::ClearingInherit(s), SocketReply::Succeeded) => SocketStep::Done(
                Ok(OwnedSocket::from_raw_socket(s)),
            ),
            (SocketClone::ClearingInherit(s), SocketReply::Failed(e)) => SocketStep::Call(
                SocketClone::Closing(s, e),
                SocketCall::Close(s),
            ),
            (SocketClone::Closing(_, e), _) => SocketStep::Done(Err(e)),
            _ => vstd::pervasive::unreached(),
        }
    }
}

impl<'socket> BorrowedSocket<'socket> {
    /// A borrowed view of `socket`. The caller promises that `socket` is
    /// open and stays open for `'socket`.
    pub fn borrow_raw(socket: RawSocket) -> (r: BorrowedSocket<'socket>)
        requires
            socket != INVALID_SOCKET,
        ensures
            r@ == socket,
    {
        BorrowedSocket { socket, _phantom: PhantomData }
    }

    /// The raw socket; never `INVALID_SOCKET`.
    pub fn as_raw_socket(&self) -> (r: RawSocket)
        ensures
            r == self@,
            r != INVALID_SOCKET,
    {
        proof {
            use_type_invariant(self);
        }
        self.socket
    }

    /// Starts a duplication into a new owned socket for the same object,
    /// created not inheritable: the first call to make, and the state that
    /// takes its answer.
    pub fn try_clone_to_owned(&self) -> (r: (SocketClone, SocketCall))
        ensures
            r == (SocketClone::Duplicating, SocketCall::DuplicateInfo(self@)),
    {
        (SocketClone::Duplicating, SocketCall::DuplicateInfo(self.as_raw_socket()))
    }
}

impl OwnedSocket {
    /// Takes ownership of `socket`. The caller promises that `socket` is open
    /// and that nothing else will close it.
    pub fn from_raw_socket(socket: RawSocket) -> (r: OwnedSocket)
        requires
            socket != INVALID_SOCKET,
        ensures
            r@ == socket,
    {
        OwnedSocket { socket }
    }

    /// The raw socket; ownership stays here. Never `INVALID_SOCKET`.
    pub fn as_raw_socket(&self) -> (r: RawSocket)
        ensures
            r == self@,
            r != INVALID_SOCKET,
    {
        proof {
            use_type_invariant(self);
        }
        self.socket
    }

    /// Gives up ownership without closing: the caller now owns the socket.
    pub fn into_raw_socket(self) -> (r: RawSocket)
        ensures
            r == self@,
            r != INVALID_SOCKET,
    {
        proof {
            use_type_invariant(&self);
        }
        self.socket
    }

    /// Gives up ownership for closing: the returned call must be made once.
    pub fn close(self) -> (r: CloseSocket)
        ensures
            r.socket == self@,
    {
        CloseSocket { socket: self.socket }
    }

    /// Starts a duplication into a second owned socket for the same object.
    pub fn try_clone(&self) -> (r: (SocketClone, SocketCall))
        ensures
            r == (SocketClone::Duplicating, SocketCall::DuplicateInfo(self@)),
    {
        self.as_socket().try_clone_to_owned()
    }

    /// The call that makes this socket not inheritable by child processes.
    pub fn set_no_inherit(&self) -> (r: SocketCall)
        ensures
            r == SocketCall::ClearInherit(self@),
    {
        SocketCall::ClearInherit(self.as_raw_socket())
    }
}

/// A value that can lend its socket.
pub trait AsSocket {
    /// The socket that `as_socket` lends.
    spec fn lent_socket(&self) -> RawSocket;

    /// Borrows the socket for the lifetime of `self`.
    fn as_socket(&self) -> (r: BorrowedSocket<'_>)
        ensures
            r@ == self.lent_socket(),
    ;
}

impl<'socket> AsSocket for BorrowedSocket<'socket> {
    open spec fn lent_socket(&self) -> RawSocket {
        self@
    }

    fn as_socket(&self) -> (r: BorrowedSocket<'_>) {
        *self
    }
}

impl AsSocket for OwnedSocket {
    open spec fn lent_socket(&self) -> RawSocket {
        self@
    }

    fn as_socket(&self) -> (r: BorrowedSocket<'_>) {
        // An owned and a borrowed socket have the same validity, and the view
        // lives no longer than `&self`.
        BorrowedSocket::borrow_raw(self.as_raw_socket())
    }
}

impl<T: AsSocket> AsSocket for &T {
    open spec fn lent_socket(&self) -> RawSocket {
        (**self).lent_socket()
    }

    fn as_socket(&self) -> (r: BorrowedSocket<'_>) {
        T::as_socket(self)
    }
}

impl<T: AsSocket> AsSocket for &mut T {
    open spec fn lent_socket(&self) -> RawSocket {
        (**self).lent_socket()
    }

    fn as_socket(&self) -> (r: BorrowedSocket<'_>) {
        T::as_socket(self)
    }
}

impl<T: AsSocket> AsSocket for std::rc::Rc<T> {
    open spec fn lent_socket(&self) -> RawSocket {
        (**self).lent_socket()
    }

    fn as_socket(&self) -> (r: BorrowedSocket<'_>) {
        (**self).as_socket()
    }
}

impl<T: AsSocket> AsSocket for std::sync::Arc<T> {
    open spec fn lent_socket(&self) -> RawSocket {
        (**self).lent_socket()
    }

    fn as_socket(&self) -> (r: BorrowedSocket<'_>) {
        (**self).as_socket()
    }
}

impl<T: AsSocket> AsSocket for Box<T> {
    open spec fn lent_socket(&self) -> RawSocket {
        (**self).lent_socket()
    }

    fn as_socket(&self) -> (r: BorrowedSocket<'_>) {
        (**self).as_socket()
    }
}

/// Borrowing from an owned socket lends the very socket it owns.
pub proof fn lemma_borrow_keeps_socket(s: OwnedSocket)
    ensures
        s.lent_socket() == s@,
        (&s).lent_socket() == s@,
{
}

/// A duplication loses no socket that it created: an answer that hands it a
/// new socket leads to a result of that socket or to a state that holds it,
/// and a state that holds one ends in that socket as the result or in a
/// `Close` call for it.
pub proof fn lemma_new_socket_kept(state: SocketClone, reply: SocketReply)
    requires
        state.wf(),
        state.accepts(reply),
    ensures
        ({
            let s = reply->Opened_0;
            reply is Opened && s != INVALID_SOCKET ==> {
                ||| state.next(reply) == Some(
                    (SocketClone::ClearingInherit(s), SocketCall::ClearInherit(s)),
                )
                ||| state.next(reply) is None && state.result(reply) == Ok::<RawSocket, OsError>(s)
            }
        }),
        ({
            let s = state->ClearingInherit_0;
            state is ClearingInherit ==> {
                ||| (state.next(reply) matches Some((n, c)) && n is Closing && n->Closing_0 == s
                    && c == SocketCall::Close(s))
                ||| state.next(reply) is None && state.result(reply) == Ok::<RawSocket, OsError>(s)
            }
        }),
{
}

} // verus!
