//! The bring-up flow: detach a daemon process, supervise the delegated
//! subprocess inside it, serve control requests, and health-check the
//! result from the launching process.
//!
//! Forking, daemonizing, socket traffic and child processes live outside
//! this library. Each function here takes the observed outcome of those
//! operating-system steps and decides what follows, so the whole control
//! flow of the original invocation, the intermediate process, and the
//! daemon is checked.

use crate::net::ClientError;
use crate::protocol::Request;
use crate::protocol::RequestParseError;
use crate::protocol::Response;
use crate::protocol::ResponseParseError;
use vstd::prelude::*;
use vstd::slice::slice_subrange;

verus! {

/// Arguments of the bring-up operation.
pub struct Args {
    pub project: String,
    pub service: String,
    pub port_mapping: String,
    pub resource: String,
}

/// What one fork was observed to return, in the process that sees it.
#[derive(Clone, Copy, PartialEq, Eq, Structural, Debug)]
pub enum ForkReply {
    /// This process is the parent; `child` is the new process's id.
    Parent { child: i32 },
    /// This process is the newly created child.
    Child,
}

/// Which detach step failed.
#[derive(Clone, Copy, PartialEq, Eq, Structural, Debug)]
pub enum SpawnError {
    ForkFailed,
    SetsidFailed,
    DaemonizeFailed,
}

/// Which role the current process ends up in after the detach protocol.
#[derive(Clone, Copy, PartialEq, Eq, Structural, Debug)]
pub enum SpawnOutcome {
    /// The originally invoked process: it holds the intermediate process's
    /// id and waits on it before health-checking the daemon.
    Launcher { intermediate: i32 },
    /// The final, fully detached daemon process.
    Daemon,
    /// The intermediate process: it exits at once with `code` so that the
    /// daemon is reparented away from the launcher.
    IntermediateExit { code: i32 },
    /// A detach step failed in this process.
    Failed(SpawnError),
}

/// What the double-indirection detach protocol decides, given what each
/// operating-system step was observed to do: the first fork, starting a new
/// session, the second fork, and the final daemonization, in that order.
pub open spec fn spec_spawn_daemon(
    first_fork: Result<ForkReply, ()>,
    setsid_ok: bool,
    second_fork: Result<ForkReply, ()>,
    daemonize_ok: bool,
) -> SpawnOutcome {
    match first_fork {
        Result::Err(_) => SpawnOutcome::Failed(SpawnError::ForkFailed),
        Result::Ok(ForkReply::Parent { child }) => SpawnOutcome::Launcher { intermediate: child },
        Result::Ok(ForkReply::Child) => if !setsid_ok {
            SpawnOutcome::Failed(SpawnError::SetsidFailed)
        } else {
            match second_fork {
                Result::Err(_) => SpawnOutcome::IntermediateExit { code: -1i32 },
                Result::Ok(ForkReply::Parent { .. }) => SpawnOutcome::IntermediateExit { code: 0i32 },
                Result::Ok(ForkReply::Child) => if daemonize_ok {
                    SpawnOutcome::Daemon
                } else {
                    SpawnOutcome::Failed(SpawnError::DaemonizeFailed)
                },
            }
        },
    }
}

/// Decide which role the current process plays after the detach protocol.
///
/// The original process keeps the intermediate's id; the intermediate
/// process exits immediately (code 0 after a successful second fork, -1 when
/// that fork failed); the grandchild becomes the daemon once daemonization
/// succeeds; and a failed step in any process is that process's failure.
pub fn spawn_daemon(
    first_fork: Result<ForkReply, ()>,
    setsid_ok: bool,
    second_fork: Result<ForkReply, ()>,
    daemonize_ok: bool,
) -> (r: SpawnOutcome)
    ensures
        r == spec_spawn_daemon(first_fork, setsid_ok, second_fork, daemonize_ok),
{
    match first_fork {
        Result::Err(_) => SpawnOutcome::Failed(SpawnError::ForkFailed),
        Result::Ok(ForkReply::Parent { child }) => SpawnOutcome::Launcher { intermediate: child },
        Result::Ok(ForkReply::Child) => {
            if !setsid_ok {
                SpawnOutcome::Failed(SpawnError::SetsidFailed)
            } else {
                match second_fork {
                    Result::Err(_) => SpawnOutcome::IntermediateExit { code: -1 },
                    Result::Ok(ForkReply::Parent { .. }) => SpawnOutcome::IntermediateExit {
                        code: 0,
                    },
                    Result::Ok(ForkReply::Child) => {
                        if daemonize_ok {
                            SpawnOutcome::Daemon
                        } else {
                            SpawnOutcome::Failed(SpawnError::DaemonizeFailed)
                        }
                    },
                }
            }
        },
    }
}

/// Why the supervision of the delegated subprocess failed.
#[derive(Clone, Copy, PartialEq, Eq, Structural, Debug)]
pub enum SupervisorError {
    /// The first spawn of the delegated command failed; this is fatal to
    /// the daemon's startup.
    SpawnFailed,
}

/// What one pass of the supervision loop does.
#[derive(Clone, Copy, PartialEq, Eq, Structural, Debug)]
pub enum SupervisorStep {
    /// The shutdown signal arrived: return, and let the scoped teardown
    /// terminate the child on the way out.
    ReturnAndKill,
    /// Polling the child failed: log a warning and keep supervising.
    WarnAndContinue,
    /// The child exited while no shutdown was signalled: log a warning and
    /// keep supervising — detection is guaranteed, restart is not.
    WarnExitAndContinue,
    /// Nothing to do: keep supervising.
    KeepPolling,
}

/// How a recorded supervision run ended.
#[derive(Clone, Copy, PartialEq, Eq, Structural, Debug)]
pub enum SupervisorRun {
    /// The shutdown signal arrived on pass `step`; the supervisor returned
    /// there, and its scoped teardown terminates the child before the
    /// daemon process can exit.
    Stopped { step: usize },
    /// The recorded passes ran out with no shutdown signal; the supervisor
    /// is still polling.
    StillRunning,
}

/// Decide one pass of the supervision loop over what was observed: whether
/// the shutdown signal is pending, whether polling the child failed, and
/// whether the poll reported the child exited. A pending shutdown signal
/// wins over everything; failing that, a failed poll or an unexpected exit
/// of the child is worth a warning but never stops the loop and never
/// respawns — detection is guaranteed, restart is not.
pub fn supervisor_step(interrupt_received: bool, poll_failed: bool, child_exited: bool) -> (r:
    SupervisorStep)
    ensures
        r == (if interrupt_received {
            SupervisorStep::ReturnAndKill
        } else if poll_failed {
            SupervisorStep::WarnAndContinue
        } else if child_exited {
            SupervisorStep::WarnExitAndContinue
        } else {
            SupervisorStep::KeepPolling
        }),
{
    if interrupt_received {
        SupervisorStep::ReturnAndKill
    } else if poll_failed {
        SupervisorStep::WarnAndContinue
    } else if child_exited {
        SupervisorStep::WarnExitAndContinue
    } else {
        SupervisorStep::KeepPolling
    }
}

/// Run the supervisor over a recorded run: `spawn_ok` says whether the first
/// spawn of the delegated command succeeded, and `interrupts[i]` whether the
/// shutdown signal was pending on pass `i`.
///
/// A failed first spawn is fatal. Otherwise the supervisor stops on the
/// first pass that sees the shutdown signal, and keeps running when no
/// recorded pass does.
pub fn manage_kubectl(spawn_ok: bool, interrupts: &Vec<bool>) -> (r: Result<
    SupervisorRun,
    SupervisorError,
>)
    ensures
        !spawn_ok ==> r == Result::<SupervisorRun, SupervisorError>::Err(
            SupervisorError::SpawnFailed,
        ),
        spawn_ok ==> r is Ok,
        r matches Ok(SupervisorRun::Stopped { step }) ==> step < interrupts@.len()
            && interrupts@[step as int] && (forall|j: int| 0 <= j < step ==> !interrupts@[j]),
        r matches Ok(SupervisorRun::StillRunning) ==> forall|j: int|
            0 <= j < interrupts@.len() ==> !interrupts@[j],
        spawn_ok && (exists|j: int| 0 <= j < interrupts@.len() && interrupts@[j]) ==> (r matches Ok(
            run,
        ) && run is Stopped),
{
    if !spawn_ok {
        return Result::Err(SupervisorError::SpawnFailed);
    }
    let mut i: usize = 0;
    while i < interrupts.len()
        invariant
            spawn_ok,
            i <= interrupts@.len(),
            forall|j: int| 0 <= j < i ==> !interrupts@[j],
        decreases interrupts@.len() - i,
    {
        if interrupts[i] {
            return Result::Ok(SupervisorRun::Stopped { step: i });
        }
        i = i + 1;
    }
    Result::Ok(SupervisorRun::StillRunning)
}

/// Why the launcher's health check of the fresh daemon failed.
#[derive(Clone, Copy, PartialEq, Eq, Structural, Debug)]
pub enum HealthCheckError {
    /// The endpoint was already served by a live daemon when this
    /// invocation began, so this invocation's own daemon cannot have bound
    /// it: any okay heard on the round trip would be the older daemon's.
    AlreadyRunning,
    /// Waiting for the intermediate process to exit failed.
    WaitFailed,
    /// No connection to the daemon's endpoint could be made.
    ConnectFailed,
    /// The health round trip broke before a response was decoded.
    RequestFailed,
    /// The daemon answered, but with the error response.
    Unhealthy,
}

/// What the launcher's health check decides, given the outcome of each
/// stage in order: the pre-flight probe of the endpoint (made in the
/// invoking process before daemonization is triggered), waiting on the
/// intermediate process, connecting to the endpoint, and the decoded
/// response of one health round trip.
///
/// The probe comes first, and on purpose: the detached daemon's own exit
/// code is invisible to the launcher, and a health round trip against the
/// shared endpoint cannot tell an older daemon's answer from the fresh
/// daemon's. An endpoint observed live before the launch therefore decides
/// the verdict by itself — the fresh daemon's bind is bound to fail with
/// `AddrInUse`, and the invocation must report failure while the older
/// daemon stays untouched.
pub open spec fn spec_health_checks(
    already_served: bool,
    wait_ok: bool,
    connect: Result<usize, ClientError>,
    response: Result<Response, ResponseParseError>,
) -> Result<(), HealthCheckError> {
    if already_served {
        Result::Err(HealthCheckError::AlreadyRunning)
    } else if !wait_ok {
        Result::Err(HealthCheckError::WaitFailed)
    } else if connect is Err {
        Result::Err(HealthCheckError::ConnectFailed)
    } else {
        match response {
            Result::Err(_) => Result::Err(HealthCheckError::RequestFailed),
            Result::Ok(Response::Error) => Result::Err(HealthCheckError::Unhealthy),
            Result::Ok(Response::Okay) => Result::Ok(()),
        }
    }
}

/// Decide the launcher's verdict on the fresh daemon. Success means: the
/// endpoint was free when the launch began, the intermediate process was
/// waited for, a connection was made, and the daemon answered one health
/// request with the okay response; the first failing stage names the error.
pub fn health_checks(
    already_served: bool,
    wait_ok: bool,
    connect: Result<usize, ClientError>,
    response: Result<Response, ResponseParseError>,
) -> (r: Result<(), HealthCheckError>)
    ensures
        r == spec_health_checks(already_served, wait_ok, connect, response),
{
    if already_served {
        return Result::Err(HealthCheckError::AlreadyRunning);
    }
    if !wait_ok {
        return Result::Err(HealthCheckError::WaitFailed);
    }
    if connect.is_err() {
        return Result::Err(HealthCheckError::ConnectFailed);
    }
    match response {
        Result::Err(_) => Result::Err(HealthCheckError::RequestFailed),
        Result::Ok(Response::Error) => Result::Err(HealthCheckError::Unhealthy),
        Result::Ok(Response::Okay) => Result::Ok(()),
    }
}

/// What the request loop does with one decoded frame.
#[derive(Clone, Copy, PartialEq, Eq, Structural, Debug)]
pub enum ServerStep {
    /// Write this response back and keep reading the same connection.
    Reply(Response),
    /// Abandon this connection and move to the next accepted one.
    NextConnection,
    /// Shut the whole server loop down, not just this connection.
    Shutdown,
}

/// The per-frame decision of the request loop: a health request earns the
/// okay reply on the same connection, a stop request ends the whole server
/// loop, and a malformed or truncated frame abandons only the affected
/// connection. `spec_connection_replies` folds this decision over a whole
/// stream.
pub fn server_step(decoded: Result<Request, RequestParseError>) -> (r: ServerStep)
    ensures
        r == (match decoded {
            Result::Err(_) => ServerStep::NextConnection,
            Result::Ok(Request::Health) => ServerStep::Reply(Response::Okay),
            Result::Ok(Request::Stop) => ServerStep::Shutdown,
        }),
{
    match decoded {
        Result::Err(_) => ServerStep::NextConnection,
        Result::Ok(Request::Health) => ServerStep::Reply(Response::Okay),
        Result::Ok(Request::Stop) => ServerStep::Shutdown,
    }
}

/// The replies one connection's byte stream earns, and whether it carried a
/// stop request. Requests are read as independent four-byte frames: every
/// health request is answered with the okay frame; a stop request ends the
/// whole exchange (nothing further is read or written); a malformed or
/// truncated frame abandons the connection.
pub open spec fn spec_connection_replies(data: Seq<u8>) -> (Seq<u8>, bool)
    decreases data.len(),
{
    match crate::protocol::spec_parse_request(data) {
        Result::Err(_) => (Seq::<u8>::empty(), false),
        Result::Ok(Request::Stop) => (Seq::<u8>::empty(), true),
        Result::Ok(Request::Health) => {
            let rest = spec_connection_replies(data.skip(4));
            (crate::protocol::spec_response_bytes(Response::Okay) + rest.0, rest.1)
        },
    }
}

/// The per-connection reply streams a whole server run produces, and
/// whether some connection asked the server to stop. Connections are served
/// in order; the first stop request ends the run, and later connections are
/// never read.
pub open spec fn spec_server_replies(conns: Seq<Seq<u8>>) -> (Seq<Seq<u8>>, bool)
    decreases conns.len(),
{
    if conns.len() == 0 {
        (Seq::<Seq<u8>>::empty(), false)
    } else {
        let first = spec_connection_replies(conns[0]);
        if first.1 {
            (seq![first.0], true)
        } else {
            let rest = spec_server_replies(conns.skip(1));
            (seq![first.0] + rest.0, rest.1)
        }
    }
}

/// The byte views of a sequence of buffers.
pub open spec fn spec_views(conns: Seq<Vec<u8>>) -> Seq<Seq<u8>> {
    conns.map_values(|v: Vec<u8>| v@)
}

/// Serve one connection: read four-byte request frames from the front of
/// `data`, answer each health request with the okay frame, and report
/// whether a stop request ended the exchange.
pub fn connection_replies(data: &[u8]) -> (r: (Vec<u8>, bool))
    ensures
        r.0@ == spec_connection_replies(data@).0,
        r.1 == spec_connection_replies(data@).1,
    decreases data@.len(),
{
    match Request::from_reader(data) {
        Result::Err(_) => (Vec::new(), false),
        Result::Ok(Request::Stop) => (Vec::new(), true),
        Result::Ok(Request::Health) => {
            let rest = slice_subrange(data, 4, data.len());
            let (mut tail, stopped) = connection_replies(rest);
            let mut out = Response::Okay.as_bytes();
            out.append(&mut tail);
            (out, stopped)
        },
    }
}

/// Serve the connections from `i` on, in order, stopping at the first one
/// whose exchange carries a stop request.
fn server_replies_from(connections: &Vec<Vec<u8>>, i: usize) -> (r: (Vec<Vec<u8>>, bool))
    requires
        i <= connections@.len(),
    ensures
        spec_views(r.0@) == spec_server_replies(spec_views(connections@).skip(i as int)).0,
        r.1 == spec_server_replies(spec_views(connections@).skip(i as int)).1,
    decreases connections@.len() - i,
{
    let ghost vs = spec_views(connections@);
    if i == connections.len() {
        proof {
            assert(vs.skip(i as int) =~= Seq::<Seq<u8>>::empty());
            assert(spec_views(Seq::<Vec<u8>>::empty()) =~= Seq::<Seq<u8>>::empty());
        }
        (Vec::new(), false)
    } else {
        proof {
            assert(vs.skip(i as int)[0] == connections@[i as int]@);
        }
        let first = connection_replies(connections[i].as_slice());
        let ghost first_spec = spec_connection_replies(connections@[i as int]@);
        if first.1 {
            let mut out: Vec<Vec<u8>> = Vec::new();
            out.push(first.0);
            proof {
                assert(spec_views(out@) =~= seq![first_spec.0]);
            }
            (out, true)
        } else {
            let rest = server_replies_from(connections, i + 1);
            let (mut rest_out, stopped) = rest;
            let ghost rest_views = spec_views(rest_out@);
            let mut out: Vec<Vec<u8>> = Vec::new();
            out.push(first.0);
            out.append(&mut rest_out);
            proof {
                assert(vs.skip(i as int).skip(1) =~= vs.skip(i as int + 1));
                assert(spec_views(out@) =~= seq![first_spec.0] + rest_views);
            }
            (out, stopped)
        }
    }
}

/// Serve a whole run of the control channel. `connections[k]` holds the
/// bytes received on the `k`-th accepted connection, in order of arrival;
/// the result pairs the bytes written back on each served connection with
/// whether a stop request shut the server down. Connections after the
/// stopping one are never served.
pub fn handle_health_requests(connections: &Vec<Vec<u8>>) -> (r: (Vec<Vec<u8>>, bool))
    ensures
        spec_views(r.0@) == spec_server_replies(spec_views(connections@)).0,
        r.1 == spec_server_replies(spec_views(connections@)).1,
{
    proof {
        assert(spec_views(connections@).skip(0) =~= spec_views(connections@));
    }
    server_replies_from(connections, 0)
}

/// The exit code of the bring-up invocation, in whichever process role it
/// finds itself after the detach protocol.
pub open spec fn spec_up_exit_code(
    spawn: SpawnOutcome,
    daemon_run_ok: bool,
    health: Result<(), HealthCheckError>,
) -> int {
    match spawn {
        SpawnOutcome::Launcher { .. } => if health is Ok {
            0
        } else {
            1
        },
        SpawnOutcome::Daemon => if daemon_run_ok {
            0
        } else {
            1
        },
        SpawnOutcome::IntermediateExit { code } => code as int,
        SpawnOutcome::Failed(_) => 1,
    }
}

/// Decide how the bring-up invocation exits, given the role this process
/// took in the detach protocol, whether the daemon's concurrent duties ran
/// to a clean finish (daemon role), and the health verdict (launcher role).
/// Zero on every success path, the intermediate's own code in the
/// intermediate, one on every failure.
pub fn up(spawn: SpawnOutcome, daemon_run_ok: bool, health: Result<(), HealthCheckError>) -> (r:
    i32)
    ensures
        r as int == spec_up_exit_code(spawn, daemon_run_ok, health),
{
    match spawn {
        SpawnOutcome::Launcher { .. } => {
            if health.is_ok() {
                0
            } else {
                1
            }
        },
        SpawnOutcome::Daemon => {
            if daemon_run_ok {
                0
            } else {
                1
            }
        },
        SpawnOutcome::IntermediateExit { code } => code,
        SpawnOutcome::Failed(_) => 1,
    }
}

/// Law: a running daemon answers health. On any connection whose stream
/// begins with a health request, the reply stream begins with a response
/// frame that decodes to `Okay`.
pub proof fn lemma_health_during_run(data: Seq<u8>)
    requires
        crate::protocol::spec_parse_request(data) == Result::<Request, RequestParseError>::Ok(
            Request::Health,
        ),
    ensures
        spec_connection_replies(data).0.len() >= 4,
        crate::protocol::spec_parse_response(spec_connection_replies(data).0) == Result::<
            Response,
            ResponseParseError,
        >::Ok(Response::Okay),
{
    let reply = spec_connection_replies(data).0;
    let ok = crate::protocol::spec_response_bytes(Response::Okay);
    let rest = spec_connection_replies(data.skip(4));
    assert(reply == ok + rest.0);
    assert(reply[0] == 0x1eu8 && reply[1] == 1u8 && reply[2] == 1u8 && reply[3] == 0x1eu8);
}

/// Law: the stop flag of a server run is raised exactly when some served
/// connection's exchange carried a stop request.
pub proof fn lemma_server_stop_flag(conns: Seq<Seq<u8>>)
    ensures
        spec_server_replies(conns).1 <==> (exists|k: int|
            0 <= k < conns.len() && spec_connection_replies(conns[k]).1),
    decreases conns.len(),
{
    if conns.len() == 0 {
    } else {
        let first = spec_connection_replies(conns[0]);
        if first.1 {
            assert(spec_connection_replies(conns[0]).1);
        } else {
            lemma_server_stop_flag(conns.skip(1));
            if spec_server_replies(conns).1 {
                let k = choose|k: int|
                    0 <= k < conns.skip(1).len() && spec_connection_replies(conns.skip(1)[k]).1;
                assert(conns.skip(1)[k] == conns[k + 1]);
                assert(spec_connection_replies(conns[k + 1]).1);
            }
            if exists|k: int| 0 <= k < conns.len() && spec_connection_replies(conns[k]).1 {
                let k = choose|k: int| 0 <= k < conns.len() && spec_connection_replies(conns[k]).1;
                assert(k != 0);
                assert(conns.skip(1)[k - 1] == conns[k]);
                assert(spec_connection_replies(conns.skip(1)[k - 1]).1);
            }
        }
    }
}

/// Law: a stop request shuts the whole channel down. If some connection's
/// stream opens with a stop request, the server run's stop flag is raised —
/// and with it the daemon sends the shutdown signal, on which the
/// supervisor stops and its scoped teardown terminates the delegated
/// subprocess.
pub proof fn lemma_stop_terminates(conns: Seq<Seq<u8>>, k: int)
    requires
        0 <= k < conns.len(),
        crate::protocol::spec_parse_request(conns[k]) == Result::<Request, RequestParseError>::Ok(
            Request::Stop,
        ),
    ensures
        spec_server_replies(conns).1,
{
    assert(spec_connection_replies(conns[k]).1);
    lemma_server_stop_flag(conns);
}

/// Law: a second bring-up against a live endpoint fails. When the
/// pre-flight probe finds the endpoint already served, the launcher's
/// verdict is `AlreadyRunning` whatever the wait, the connect and the
/// round trip observed — even the okay that the older daemon would answer —
/// and the invocation exits 1. The older daemon is never touched: the only
/// write this path makes toward it is the probe connection.
pub proof fn lemma_second_launch_rejected(
    intermediate: i32,
    daemon_run_ok: bool,
    wait_ok: bool,
    connect: Result<usize, ClientError>,
    response: Result<Response, ResponseParseError>,
)
    ensures
        spec_health_checks(true, wait_ok, connect, response) == Result::<
            (),
            HealthCheckError,
        >::Err(HealthCheckError::AlreadyRunning),
        spec_up_exit_code(
            SpawnOutcome::Launcher { intermediate },
            daemon_run_ok,
            Result::Err(HealthCheckError::AlreadyRunning),
        ) == 1,
{
}

} // verus!
