//! Control channel: endpoint naming, the server's bind decision, and the
//! client's bounded-retry connect and disconnect-wait logic.
//!
//! The operating-system steps themselves (probing, binding, connecting)
//! happen outside this library; the functions here take the observed outcome
//! of each step and decide what follows, so every decision is checked.

use vstd::prelude::*;
use vstd::string::*;

verus! {

/// How many times a client tries to connect before giving up.
pub const CONNECT_ATTEMPTS: usize = 15;

/// How many times the disconnect wait probes the endpoint before giving up.
pub const DISCONNECT_ATTEMPTS: usize = 10;

/// The endpoint name derived from a project and a service: the project
/// becomes a directory under the well-known temporary location, the service
/// the file name, with a fixed extension.
pub open spec fn spec_socket_path(project: Seq<char>, service: Seq<char>) -> Seq<char> {
    "/tmp/"@ + project + "/"@ + service + ".sock"@
}

/// Derive the endpoint name for one `(project, service)` pair.
///
/// Identical pairs always derive the same name; by
/// `lemma_socket_path_injective`, distinct pairs (with `/`-free components)
/// never collide.
pub fn socket_fn(project: &str, service: &str) -> (r: String)
    ensures
        r@ == spec_socket_path(project@, service@),
{
    let mut buf = String::from_str("/tmp/");
    buf.append(project);
    buf.append("/");
    buf.append(service);
    buf.append(".sock");
    buf
}

/// Law: endpoint naming is injective. Two pairs whose components contain no
/// path separator derive the same endpoint name only if they are the same
/// pair; equivalently, distinct pairs never collide.
pub proof fn lemma_socket_path_injective(
    p1: Seq<char>,
    s1: Seq<char>,
    p2: Seq<char>,
    s2: Seq<char>,
)
    requires
        forall|i: int| 0 <= i < p1.len() ==> p1[i] != '/',
        forall|i: int| 0 <= i < p2.len() ==> p2[i] != '/',
        spec_socket_path(p1, s1) == spec_socket_path(p2, s2),
    ensures
        p1 == p2,
        s1 == s2,
{
    reveal_strlit("/tmp/");
    reveal_strlit("/");
    reveal_strlit(".sock");
    let a = spec_socket_path(p1, s1);
    let b = spec_socket_path(p2, s2);
    assert(a.len() == 5 + p1.len() + 1 + s1.len() + 5);
    assert(b.len() == 5 + p2.len() + 1 + s2.len() + 5);
    // The two project components have the same length: were one shorter, the
    // shared string would hold the separator '/' at the position where the
    // longer project still holds a '/'-free character.
    assert(p1.len() == p2.len()) by {
        if p1.len() < p2.len() {
            let k = 5 + p1.len() as int;
            assert(a[k] == '/');
            assert(b[k] == p2[p1.len() as int]);
            assert(false);
        } else if p2.len() < p1.len() {
            let k = 5 + p2.len() as int;
            assert(b[k] == '/');
            assert(a[k] == p1[p2.len() as int]);
            assert(false);
        }
    }
    assert(p1 =~= p2) by {
        assert forall|i: int| 0 <= i < p1.len() implies p1[i] == p2[i] by {
            assert(a[5 + i] == p1[i]);
            assert(b[5 + i] == p2[i]);
        }
    }
    assert(s1.len() == s2.len());
    assert(s1 =~= s2) by {
        assert forall|i: int| 0 <= i < s1.len() implies s1[i] == s2[i] by {
            assert(a[6 + p1.len() + i] == s1[i]);
            assert(b[6 + p2.len() + i] == s2[i]);
        }
    }
}

/// What one attempt to connect to an endpoint was observed to do.
#[derive(Clone, Copy, PartialEq, Eq, Structural, Debug)]
pub enum ConnectOutcome {
    /// The connection was established.
    Connected,
    /// The attempt failed because the endpoint is gone (the
    /// address-not-available / not-found class of error).
    ErrorGone,
    /// The attempt failed for any other reason.
    ErrorOther,
}

/// Why a client operation failed.
#[derive(Clone, Copy, PartialEq, Eq, Structural, Debug)]
pub enum ClientError {
    ConnectTimeout,
}

/// Why the disconnect wait failed.
#[derive(Clone, Copy, PartialEq, Eq, Structural, Debug)]
pub enum WaitError {
    TimedOut,
}

/// Connect to an endpoint with bounded retry: one attempt per entry of
/// `outcomes` (the observed result of each try, in order), at most
/// `CONNECT_ATTEMPTS` of them, stopping at the first established connection.
///
/// Returns the index of the attempt that connected, or `ConnectTimeout` once
/// the attempts are exhausted without a connection.
pub fn connect_client(outcomes: &Vec<ConnectOutcome>) -> (r: Result<usize, ClientError>)
    ensures
        r matches Ok(i) ==> 0 <= i < CONNECT_ATTEMPTS && i < outcomes@.len() && outcomes@[i as int]
            is Connected && (forall|j: int| 0 <= j < i ==> !(outcomes@[j] is Connected)),
        r is Err <==> (forall|j: int|
            0 <= j < CONNECT_ATTEMPTS && j < outcomes@.len() ==> !(outcomes@[j] is Connected)),
        r matches Err(e) ==> e == ClientError::ConnectTimeout,
{
    let mut i: usize = 0;
    while i < CONNECT_ATTEMPTS && i < outcomes.len()
        invariant
            0 <= i <= CONNECT_ATTEMPTS,
            i <= outcomes@.len(),
            forall|j: int| 0 <= j < i ==> !(outcomes@[j] is Connected),
        decreases CONNECT_ATTEMPTS - i,
    {
        if let ConnectOutcome::Connected = outcomes[i] {
            return Result::Ok(i);
        }
        i = i + 1;
    }
    Result::Err(ClientError::ConnectTimeout)
}

/// Wait for an endpoint to disappear: one probe per entry of `outcomes`, at
/// most `DISCONNECT_ATTEMPTS` of them. A probe that fails because the
/// endpoint is gone confirms the shutdown; a probe that connects, or fails
/// any other way, is retried.
pub fn wait_for_disconnect(outcomes: &Vec<ConnectOutcome>) -> (r: Result<(), WaitError>)
    ensures
        r is Ok <==> (exists|i: int|
            0 <= i < DISCONNECT_ATTEMPTS && i < outcomes@.len() && outcomes@[i] is ErrorGone),
        r matches Err(e) ==> e == WaitError::TimedOut,
{
    let mut i: usize = 0;
    while i < DISCONNECT_ATTEMPTS && i < outcomes.len()
        invariant
            0 <= i <= DISCONNECT_ATTEMPTS,
            i <= outcomes@.len(),
            forall|j: int| 0 <= j < i ==> !(outcomes@[j] is ErrorGone),
        decreases DISCONNECT_ATTEMPTS - i,
    {
        if let ConnectOutcome::ErrorGone = outcomes[i] {
            return Result::Ok(());
        }
        i = i + 1;
    }
    Result::Err(WaitError::TimedOut)
}

/// Why establishing a listener failed.
#[derive(Clone, Copy, PartialEq, Eq, Structural, Debug)]
pub enum ServerError {
    /// A live process already accepts connections at this endpoint.
    AddrInUse,
    /// Creating the endpoint's parent location or binding it failed.
    ListenError,
    /// The platform refused to make the listening socket non-blocking.
    NonBlockingUnavailable,
}

/// The server side of the control channel: one bound endpoint. The bound
/// filesystem path is removed again when the real listener is torn down.
pub struct Server {
    pub socket_path: String,
}

/// Whether a live server already listens at an endpoint: the path must both
/// exist and accept a probe connection. A leftover path from an unclean
/// shutdown exists but accepts nothing, and does not count.
pub fn another_server_listening(path_exists: bool, connect_succeeds: bool) -> (r: bool)
    ensures
        r == (path_exists && connect_succeeds),
{
    path_exists && connect_succeeds
}

/// What `Server::listen` decides, given the observed outcome of each
/// operating-system step: the liveness probe, creating the parent location,
/// binding, and switching the socket to non-blocking, in that order.
pub open spec fn spec_listen_decision(
    path_exists: bool,
    connect_succeeds: bool,
    create_dir_ok: bool,
    bind_ok: bool,
    nonblocking_ok: bool,
) -> Result<(), ServerError> {
    if path_exists && connect_succeeds {
        Result::Err(ServerError::AddrInUse)
    } else if !create_dir_ok {
        Result::Err(ServerError::ListenError)
    } else if !bind_ok {
        Result::Err(ServerError::ListenError)
    } else if !nonblocking_ok {
        Result::Err(ServerError::NonBlockingUnavailable)
    } else {
        Result::Ok(())
    }
}

impl Server {
    /// Decide the outcome of binding `socket`, given what each
    /// operating-system step was observed to do. A live listener at the
    /// endpoint wins over everything else and yields `AddrInUse`; otherwise
    /// the first failing step names the error, and only when every step
    /// succeeds does a bound server exist.
    pub fn listen(
        socket: &str,
        path_exists: bool,
        connect_succeeds: bool,
        create_dir_ok: bool,
        bind_ok: bool,
        nonblocking_ok: bool,
    ) -> (r: Result<Server, ServerError>)
        ensures
            (r is Ok) == (spec_listen_decision(
                path_exists,
                connect_succeeds,
                create_dir_ok,
                bind_ok,
                nonblocking_ok,
            ) is Ok),
            r matches Ok(srv) ==> srv.socket_path@ == socket@,
            r matches Err(e) ==> Result::Err::<(), ServerError>(e) == spec_listen_decision(
                path_exists,
                connect_succeeds,
                create_dir_ok,
                bind_ok,
                nonblocking_ok,
            ),
    {
        if another_server_listening(path_exists, connect_succeeds) {
            return Result::Err(ServerError::AddrInUse);
        }
        if !create_dir_ok {
            return Result::Err(ServerError::ListenError);
        }
        if !bind_ok {
            return Result::Err(ServerError::ListenError);
        }
        if !nonblocking_ok {
            return Result::Err(ServerError::NonBlockingUnavailable);
        }
        Result::Ok(Server { socket_path: String::from_str(socket) })
    }
}

/// Law: mutual exclusion at one endpoint. While a live listener accepts the
/// probe connection, a second `listen` on the same endpoint fails with
/// `AddrInUse`, whatever the later steps would have done; once that listener
/// is gone (nothing accepts the probe any more), a fresh `listen` succeeds
/// as soon as the remaining steps succeed — even if the old path was left
/// behind.
pub proof fn lemma_listen_mutual_exclusion(
    path_exists: bool,
    create_dir_ok: bool,
    bind_ok: bool,
    nonblocking_ok: bool,
)
    ensures
        spec_listen_decision(true, true, create_dir_ok, bind_ok, nonblocking_ok) == Result::Err::<
            (),
            ServerError,
        >(ServerError::AddrInUse),
        spec_listen_decision(path_exists, false, true, true, true) == Result::Ok::<
            (),
            ServerError,
        >(()),
{
}

} // verus!
