use pfdaemon::cli::Compose;
use pfdaemon::cli::ComposeCommand;
use pfdaemon::cli::Dispatch;
use pfdaemon::cli::Opts;
use pfdaemon::cli::ServiceArgs;
use pfdaemon::cli::UpArgs;
use pfdaemon::cli::run;
use pfdaemon::cmd::down::DownOutcome;
use pfdaemon::cmd::down::down;
use pfdaemon::cmd::up::ForkReply;
use pfdaemon::cmd::up::HealthCheckError;
use pfdaemon::cmd::up::SpawnError;
use pfdaemon::cmd::up::SpawnOutcome;
use pfdaemon::cmd::up::SupervisorError;
use pfdaemon::cmd::up::SupervisorRun;
use pfdaemon::cmd::up::ServerStep;
use pfdaemon::cmd::up::SupervisorStep;
use pfdaemon::cmd::up::connection_replies;
use pfdaemon::cmd::up::handle_health_requests;
use pfdaemon::cmd::up::health_checks;
use pfdaemon::cmd::up::manage_kubectl;
use pfdaemon::cmd::up::server_step;
use pfdaemon::cmd::up::spawn_daemon;
use pfdaemon::cmd::up::supervisor_step;
use pfdaemon::cmd::up::up;
use pfdaemon::docker::Message;
use pfdaemon::docker::MessageType;
use pfdaemon::net::ClientError;
use pfdaemon::net::ConnectOutcome;
use pfdaemon::net::WaitError;
use pfdaemon::net::another_server_listening;
use pfdaemon::net::connect_client;
use pfdaemon::net::socket_fn;
use pfdaemon::net::wait_for_disconnect;
use pfdaemon::protocol::Request;
use pfdaemon::protocol::RequestParseError;
use pfdaemon::protocol::Response;

fn health_frame() -> Vec<u8> {
    Request::Health.as_bytes()
}

fn stop_frame() -> Vec<u8> {
    Request::Stop.as_bytes()
}

#[test]
fn run_dispatches_up_with_all_arguments() {
    let opts = Opts {
        compose: Compose::Compose {
            project: "proj1".to_string(),
            command: ComposeCommand::Up(UpArgs {
                resource: "deployment/x".to_string(),
                port_mapping: "8080:80".to_string(),
                service: ServiceArgs { service: "svcA".to_string() },
            }),
        },
    };
    match run(opts) {
        Dispatch::Up(args) => {
            assert_eq!(args.project, "proj1");
            assert_eq!(args.service, "svcA");
            assert_eq!(args.resource, "deployment/x");
            assert_eq!(args.port_mapping, "8080:80");
        }
        Dispatch::Down(_) => panic!("up invocation dispatched to down"),
    }
}

#[test]
fn run_dispatches_down_with_project_and_service() {
    let opts = Opts {
        compose: Compose::Compose {
            project: "proj1".to_string(),
            command: ComposeCommand::Down(UpArgs {
                resource: String::new(),
                port_mapping: String::new(),
                service: ServiceArgs { service: "svcB".to_string() },
            }),
        },
    };
    match run(opts) {
        Dispatch::Down(args) => {
            assert_eq!(args.project, "proj1");
            assert_eq!(args.service, "svcB");
        }
        Dispatch::Up(_) => panic!("down invocation dispatched to up"),
    }
}

#[test]
fn spawn_daemon_assigns_each_process_its_role() {
    // Original process: first fork returns the intermediate's id.
    assert_eq!(
        spawn_daemon(Ok(ForkReply::Parent { child: 42 }), true, Ok(ForkReply::Child), true),
        SpawnOutcome::Launcher { intermediate: 42 }
    );
    // Intermediate process: exits 0 once the daemon is forked.
    assert_eq!(
        spawn_daemon(Ok(ForkReply::Child), true, Ok(ForkReply::Parent { child: 43 }), true),
        SpawnOutcome::IntermediateExit { code: 0 }
    );
    // Grandchild: becomes the daemon after daemonizing.
    assert_eq!(
        spawn_daemon(Ok(ForkReply::Child), true, Ok(ForkReply::Child), true),
        SpawnOutcome::Daemon
    );
}

#[test]
fn spawn_daemon_surfaces_each_failing_step() {
    assert_eq!(
        spawn_daemon(Err(()), true, Ok(ForkReply::Child), true),
        SpawnOutcome::Failed(SpawnError::ForkFailed)
    );
    assert_eq!(
        spawn_daemon(Ok(ForkReply::Child), false, Ok(ForkReply::Child), true),
        SpawnOutcome::Failed(SpawnError::SetsidFailed)
    );
    assert_eq!(
        spawn_daemon(Ok(ForkReply::Child), true, Err(()), true),
        SpawnOutcome::IntermediateExit { code: -1 }
    );
    assert_eq!(
        spawn_daemon(Ok(ForkReply::Child), true, Ok(ForkReply::Child), false),
        SpawnOutcome::Failed(SpawnError::DaemonizeFailed)
    );
}

#[test]
fn supervisor_prefers_shutdown_over_everything() {
    assert_eq!(supervisor_step(true, true, false), SupervisorStep::ReturnAndKill);
    assert_eq!(supervisor_step(true, false, true), SupervisorStep::ReturnAndKill);
    assert_eq!(supervisor_step(false, true, false), SupervisorStep::WarnAndContinue);
    assert_eq!(supervisor_step(false, false, false), SupervisorStep::KeepPolling);
}

#[test]
fn supervisor_warns_on_an_unexpected_child_exit_without_restarting() {
    // An exit while no shutdown is signalled is detected and logged, and
    // the loop keeps going: detection only, no respawn and no stop.
    assert_eq!(supervisor_step(false, false, true), SupervisorStep::WarnExitAndContinue);
    // With the shutdown signal pending, stopping wins over the warning.
    assert_eq!(supervisor_step(true, false, true), SupervisorStep::ReturnAndKill);
}

#[test]
fn server_step_decides_each_frame() {
    assert_eq!(
        server_step(Ok(Request::Health)),
        ServerStep::Reply(Response::Okay)
    );
    assert_eq!(server_step(Ok(Request::Stop)), ServerStep::Shutdown);
    assert_eq!(
        server_step(Err(RequestParseError::Eof)),
        ServerStep::NextConnection
    );
    assert_eq!(
        server_step(Err(RequestParseError::Unknown(0, 0, 0, 0))),
        ServerStep::NextConnection
    );
}

#[test]
fn supervisor_stops_at_the_first_shutdown_signal() {
    let interrupts = vec![false, false, true, true];
    assert_eq!(manage_kubectl(true, &interrupts), Ok(SupervisorRun::Stopped { step: 2 }));
}

#[test]
fn supervisor_keeps_running_without_a_signal() {
    let interrupts = vec![false; 5];
    assert_eq!(manage_kubectl(true, &interrupts), Ok(SupervisorRun::StillRunning));
}

#[test]
fn supervisor_fails_fast_when_the_first_spawn_fails() {
    let interrupts = vec![true];
    assert_eq!(manage_kubectl(false, &interrupts), Err(SupervisorError::SpawnFailed));
}

#[test]
fn health_checks_reports_the_first_failing_stage() {
    assert_eq!(
        health_checks(true, true, Ok(0), Ok(Response::Okay)),
        Err(HealthCheckError::AlreadyRunning)
    );
    assert_eq!(
        health_checks(false, false, Ok(0), Ok(Response::Okay)),
        Err(HealthCheckError::WaitFailed)
    );
    assert_eq!(
        health_checks(false, true, Err(ClientError::ConnectTimeout), Ok(Response::Okay)),
        Err(HealthCheckError::ConnectFailed)
    );
    assert_eq!(
        health_checks(false, true, Ok(0), Err(pfdaemon::protocol::ResponseParseError::Eof)),
        Err(HealthCheckError::RequestFailed)
    );
    assert_eq!(
        health_checks(false, true, Ok(0), Ok(Response::Error)),
        Err(HealthCheckError::Unhealthy)
    );
    assert_eq!(health_checks(false, true, Ok(0), Ok(Response::Okay)), Ok(()));
}

#[test]
fn server_answers_health_and_keeps_the_connection() {
    let mut stream = health_frame();
    stream.extend(health_frame());
    let (replies, stopped) = connection_replies(&stream);
    let mut expected = Response::Okay.as_bytes();
    expected.extend(Response::Okay.as_bytes());
    assert_eq!(replies, expected);
    assert!(!stopped);
}

#[test]
fn server_answers_health_until_the_stop_arrives() {
    let mut stream = health_frame();
    stream.extend(stop_frame());
    stream.extend(health_frame()); // never read: the exchange ended
    let (replies, stopped) = connection_replies(&stream);
    assert_eq!(replies, Response::Okay.as_bytes());
    assert!(stopped);
}

#[test]
fn server_with_no_connections_serves_nothing() {
    let (replies, stopped) = handle_health_requests(&Vec::new());
    assert!(replies.is_empty());
    assert!(!stopped);
}

#[test]
fn up_exit_codes_cover_every_role() {
    assert_eq!(up(SpawnOutcome::Launcher { intermediate: 9 }, true, Ok(())), 0);
    assert_eq!(
        up(SpawnOutcome::Launcher { intermediate: 9 }, true, Err(HealthCheckError::Unhealthy)),
        1
    );
    assert_eq!(up(SpawnOutcome::Daemon, true, Ok(())), 0);
    assert_eq!(up(SpawnOutcome::Daemon, false, Ok(())), 1);
    assert_eq!(up(SpawnOutcome::IntermediateExit { code: 0 }, true, Ok(())), 0);
    assert_eq!(up(SpawnOutcome::IntermediateExit { code: -1 }, true, Ok(())), -1);
    assert_eq!(up(SpawnOutcome::Failed(SpawnError::ForkFailed), true, Ok(())), 1);
}

#[test]
fn down_reports_each_failing_stage() {
    assert_eq!(
        down(Ok(0), false, Err(WaitError::TimedOut)),
        DownOutcome::SendFailed
    );
    assert_eq!(
        down(Ok(0), true, Err(WaitError::TimedOut)),
        DownOutcome::WaitFailed
    );
    assert_eq!(down(Ok(0), true, Ok(())), DownOutcome::Completed);
}

#[test]
fn server_abandons_a_malformed_connection() {
    let stream = vec![0x1e, 9, 9, 0x1e];
    let (replies, stopped) = connection_replies(&stream);
    assert!(replies.is_empty());
    assert!(!stopped);
}

#[test]
fn server_abandons_a_truncated_connection() {
    let mut stream = health_frame();
    stream.extend([0x1e, 1]); // the next frame never completes
    let (replies, stopped) = connection_replies(&stream);
    assert_eq!(replies, Response::Okay.as_bytes());
    assert!(!stopped);
}

#[test]
fn server_shuts_down_on_stop_and_skips_later_connections() {
    let connections = vec![health_frame(), stop_frame(), health_frame()];
    let (replies, stopped) = handle_health_requests(&connections);
    assert!(stopped);
    // The first connection was answered, the stopping one got no reply, and
    // the third was never served.
    assert_eq!(replies.len(), 2);
    assert_eq!(replies[0], Response::Okay.as_bytes());
    assert!(replies[1].is_empty());
}

#[test]
fn server_survives_bad_connections_between_good_ones() {
    let connections = vec![vec![1, 2, 3, 4], health_frame()];
    let (replies, stopped) = handle_health_requests(&connections);
    assert!(!stopped);
    assert_eq!(replies.len(), 2);
    assert!(replies[0].is_empty());
    assert_eq!(replies[1], Response::Okay.as_bytes());
}

#[test]
fn messages_carry_their_kind_and_text() {
    let m = Message::info("Daemon up".to_string());
    assert_eq!(m.kind, MessageType::Info);
    assert_eq!(m.message, "Daemon up");
    let m = Message::error("Health check failed".to_string());
    assert_eq!(m.kind, MessageType::Error);
    assert_eq!(m.message, "Health check failed");
}

#[test]
fn scenario_a_up_then_health_ok() {
    // Start the daemon for (proj1, svcA) with resource deployment/x and
    // mapping 8080:80: the launcher's role comes back from the detach
    // protocol, the daemon binds its endpoint and answers one health
    // request, and the launcher exits 0.
    let opts = Opts {
        compose: Compose::Compose {
            project: "proj1".to_string(),
            command: ComposeCommand::Up(UpArgs {
                resource: "deployment/x".to_string(),
                port_mapping: "8080:80".to_string(),
                service: ServiceArgs { service: "svcA".to_string() },
            }),
        },
    };
    let args = match run(opts) {
        Dispatch::Up(args) => args,
        Dispatch::Down(_) => panic!("expected the up flow"),
    };
    let endpoint = socket_fn(&args.project, &args.service);
    assert_eq!(endpoint, "/tmp/proj1/svcA.sock");

    let spawn = spawn_daemon(Ok(ForkReply::Parent { child: 7 }), true, Ok(ForkReply::Child), true);
    assert_eq!(spawn, SpawnOutcome::Launcher { intermediate: 7 });

    // Inside the daemon, the health request is answered with Okay.
    let (replies, stopped) = handle_health_requests(&vec![health_frame()]);
    assert!(!stopped);
    let response = Response::from_reader(&replies[0]);
    assert_eq!(response, Ok(Response::Okay));

    // The endpoint was free when the launch began, so the launcher's
    // health check passes and the invocation exits 0.
    let already_served = another_server_listening(false, false);
    let connect = connect_client(&vec![ConnectOutcome::Connected]);
    let health = health_checks(already_served, true, connect, response);
    assert_eq!(up(spawn, true, health), 0);
}

#[test]
fn scenario_b_second_daemon_is_rejected() {
    // A second bring-up for the same (proj1, svcA) while the first daemon
    // is live: the invoking process's pre-flight probe finds the endpoint
    // already served, so the launcher reports failure and exits 1 — even
    // though the round trip would hear the first daemon's okay.
    let already_served = another_server_listening(true, true);
    assert!(already_served);

    let spawn = spawn_daemon(Ok(ForkReply::Parent { child: 8 }), true, Ok(ForkReply::Child), true);
    let connect = connect_client(&vec![ConnectOutcome::Connected]);
    let health = health_checks(already_served, true, connect, Ok(Response::Okay));
    assert_eq!(health, Err(HealthCheckError::AlreadyRunning));
    assert_eq!(up(spawn, true, health), 1);

    // The second invocation's own daemon cannot bind the endpoint either:
    // its listen fails with AddrInUse and that detached process exits 1.
    let endpoint = socket_fn("proj1", "svcA");
    let second = pfdaemon::net::Server::listen(&endpoint, true, true, true, true, true);
    assert!(matches!(second, Err(pfdaemon::net::ServerError::AddrInUse)));
    assert_eq!(up(SpawnOutcome::Daemon, false, Ok(())), 1);

    // The first daemon is untouched and still answers health.
    let (replies, stopped) = handle_health_requests(&vec![health_frame()]);
    assert!(!stopped);
    assert_eq!(Response::from_reader(&replies[0]), Ok(Response::Okay));
}

#[test]
fn scenario_c_stop_takes_the_daemon_down() {
    // Stop (proj1, svcA): the stop request ends the server run, the
    // supervisor sees the shutdown signal and kills the delegated
    // subprocess, the endpoint disappears, and the invocation exits 0.
    let (replies, stopped) = handle_health_requests(&vec![stop_frame()]);
    assert!(stopped);
    assert!(replies[0].is_empty());

    let supervision = manage_kubectl(true, &vec![false, true]);
    assert_eq!(supervision, Ok(SupervisorRun::Stopped { step: 1 }));

    let connect = connect_client(&vec![ConnectOutcome::Connected]);
    let wait = wait_for_disconnect(&vec![
        ConnectOutcome::Connected,
        ConnectOutcome::ErrorGone,
    ]);
    let outcome = down(connect, true, wait);
    assert_eq!(outcome, DownOutcome::Completed);
    assert_eq!(outcome.exit_code(), 0);
}

#[test]
fn scenario_d_stop_without_a_daemon_fails() {
    // Stop (proj1, svcB) with no daemon running: every connect attempt
    // fails, the client times out, and the invocation exits non-zero.
    let attempts = vec![ConnectOutcome::ErrorGone; 15];
    let connect = connect_client(&attempts);
    assert_eq!(connect, Err(ClientError::ConnectTimeout));

    let outcome = down(connect, false, Err(WaitError::TimedOut));
    assert_eq!(outcome, DownOutcome::ConnectFailed);
    assert_eq!(outcome.exit_code(), 1);
}
