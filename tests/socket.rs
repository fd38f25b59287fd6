use os_handles::os_error::OsError;
use os_handles::socket::{
    AsSocket, BorrowedSocket, CloseSocket, OwnedSocket, RawSocket, SocketCall, SocketClone,
    SocketReply, SocketStep, INVALID_SOCKET, WSAEINVAL, WSAEPROTOTYPE, WSA_FLAG_NO_HANDLE_INHERIT,
    WSA_FLAG_OVERLAPPED,
};

/// Runs a socket duplication against a scripted system, and returns the
/// result with every call that was made.
fn run(
    first: (SocketClone, SocketCall),
    mut system: impl FnMut(&SocketCall) -> SocketReply,
) -> (Result<OwnedSocket, OsError>, Vec<SocketCall>) {
    let (mut state, mut call) = first;
    let mut calls = Vec::new();
    loop {
        let reply = system(&call);
        calls.push(call);
        assert!(state.accepts_reply(&reply));
        match state.resume(reply) {
            SocketStep::Call(next, next_call) => {
                state = next;
                call = next_call;
            }
            SocketStep::Done(result) => return (result, calls),
        }
    }
}

#[test]
fn duplication_with_the_no_inherit_flag() {
    let owned = OwnedSocket::from_raw_socket(5);
    let (result, calls) = run(owned.try_clone(), |call| match call {
        SocketCall::DuplicateInfo(_) => SocketReply::Succeeded,
        SocketCall::Open(_) => SocketReply::Opened(6),
        _ => panic!("unexpected call {:?}", call),
    });
    assert_eq!(result.unwrap().as_raw_socket(), 6);
    assert_eq!(
        calls,
        vec![
            SocketCall::DuplicateInfo(5),
            SocketCall::Open(WSA_FLAG_OVERLAPPED | WSA_FLAG_NO_HANDLE_INHERIT),
        ]
    );
    assert_eq!(WSA_FLAG_OVERLAPPED | WSA_FLAG_NO_HANDLE_INHERIT, 0x81);
}

#[test]
fn duplication_fails_when_the_protocol_record_fails() {
    let borrowed = BorrowedSocket::borrow_raw(5);
    let (result, calls) = run(borrowed.try_clone_to_owned(), |_| {
        SocketReply::Failed(OsError::from_raw_os_error(10038))
    });
    assert_eq!(result.unwrap_err().raw_os_error(), 10038);
    assert_eq!(calls, vec![SocketCall::DuplicateInfo(5)]);
}

#[test]
fn duplication_fails_on_an_open_error_other_than_a_missing_flag() {
    let borrowed = BorrowedSocket::borrow_raw(5);
    let (result, calls) = run(borrowed.try_clone_to_owned(), |call| match call {
        SocketCall::DuplicateInfo(_) => SocketReply::Succeeded,
        SocketCall::Open(_) => SocketReply::Opened(INVALID_SOCKET),
        SocketCall::LastError => SocketReply::Code(10055),
        _ => panic!("unexpected call {:?}", call),
    });
    assert_eq!(result.unwrap_err(), OsError { code: 10055 });
    assert_eq!(calls.len(), 3);
    assert_eq!(calls[2], SocketCall::LastError);
}

#[test]
fn duplication_retries_without_the_flag_and_clears_inheritance() {
    for missing_flag in [WSAEPROTOTYPE, WSAEINVAL] {
        let borrowed = BorrowedSocket::borrow_raw(5);
        let (result, calls) = run(borrowed.try_clone_to_owned(), |call| match call {
            SocketCall::DuplicateInfo(_) => SocketReply::Succeeded,
            SocketCall::Open(flags) if *flags == WSA_FLAG_OVERLAPPED => SocketReply::Opened(8),
            SocketCall::Open(_) => SocketReply::Opened(INVALID_SOCKET),
            SocketCall::LastError => SocketReply::Code(missing_flag),
            SocketCall::ClearInherit(_) => SocketReply::Succeeded,
            SocketCall::Close(_) => panic!("nothing to close"),
        });
        assert_eq!(result.unwrap().as_raw_socket(), 8);
        assert_eq!(
            calls,
            vec![
                SocketCall::DuplicateInfo(5),
                SocketCall::Open(WSA_FLAG_OVERLAPPED | WSA_FLAG_NO_HANDLE_INHERIT),
                SocketCall::LastError,
                SocketCall::Open(WSA_FLAG_OVERLAPPED),
                SocketCall::ClearInherit(8),
            ]
        );
    }
}

#[test]
fn duplication_reports_the_error_of_the_second_open() {
    let borrowed = BorrowedSocket::borrow_raw(5);
    let mut codes = vec![10022, 10024].into_iter();
    let (result, calls) = run(borrowed.try_clone_to_owned(), |call| match call {
        SocketCall::DuplicateInfo(_) => SocketReply::Succeeded,
        SocketCall::Open(_) => SocketReply::Opened(INVALID_SOCKET),
        SocketCall::LastError => SocketReply::Code(codes.next().unwrap()),
        _ => panic!("unexpected call {:?}", call),
    });
    assert_eq!(result.unwrap_err().raw_os_error(), 10024);
    assert_eq!(calls.len(), 5);
}

#[test]
fn duplication_closes_the_new_socket_when_inheritance_stays() {
    let borrowed = BorrowedSocket::borrow_raw(5);
    let (result, calls) = run(borrowed.try_clone_to_owned(), |call| match call {
        SocketCall::DuplicateInfo(_) => SocketReply::Succeeded,
        SocketCall::Open(flags) if *flags == WSA_FLAG_OVERLAPPED => SocketReply::Opened(8),
        SocketCall::Open(_) => SocketReply::Opened(INVALID_SOCKET),
        SocketCall::LastError => SocketReply::Code(WSAEINVAL),
        SocketCall::ClearInherit(_) => SocketReply::Failed(OsError::from_raw_os_error(87)),
        SocketCall::Close(_) => SocketReply::Closed,
    });
    assert_eq!(result.unwrap_err().raw_os_error(), 87);
    assert_eq!(calls[4], SocketCall::ClearInherit(8));
    assert_eq!(calls[5], SocketCall::Close(8));
    assert_eq!(calls.len(), 6);
}

#[test]
fn a_reply_must_answer_the_call() {
    assert!(SocketClone::Duplicating.accepts_reply(&SocketReply::Succeeded));
    assert!(!SocketClone::Duplicating.accepts_reply(&SocketReply::Opened(3)));
    assert!(SocketClone::OpeningNoInherit.accepts_reply(&SocketReply::Opened(3)));
    assert!(!SocketClone::ReadingOpenError.accepts_reply(&SocketReply::Closed));
    assert!(SocketClone::Closing(3, OsError { code: 1 }).accepts_reply(&SocketReply::Closed));
}

#[test]
fn socket_ownership_ends_once() {
    let owned = OwnedSocket::from_raw_socket(42);
    assert_eq!(owned.into_raw_socket(), 42);
    let mut closed: Vec<RawSocket> = Vec::new();
    let owned = OwnedSocket::from_raw_socket(43);
    let CloseSocket { socket } = owned.close();
    closed.push(socket);
    assert_eq!(closed, vec![43]);
}

#[test]
fn borrowing_lends_the_owned_socket() {
    let owned = OwnedSocket::from_raw_socket(42);
    let view = owned.as_socket();
    assert_eq!(view.as_raw_socket(), owned.as_raw_socket());
    assert_eq!(view.as_socket().as_raw_socket(), 42);
    assert_eq!((&owned).as_socket().as_raw_socket(), 42);
    assert_eq!(Box::new(OwnedSocket::from_raw_socket(0)).as_socket().as_raw_socket(), 0);
}

#[test]
fn set_no_inherit_names_the_socket() {
    let owned = OwnedSocket::from_raw_socket(11);
    assert_eq!(owned.set_no_inherit(), SocketCall::ClearInherit(11));
}
