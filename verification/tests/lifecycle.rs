use pingora_server::configuration::{Opt, ServerConf};
use pingora_server::lifecycle::{Action, Event, Lifecycle, Phase};
use pingora_server::server::Server;
use pingora_server::service::{Flavor, RuntimePlan, Service, ServiceStart};
use pingora_server::signal::{ShutdownSignal, ShutdownType, Signal};

type Run = Lifecycle<u32, &'static str>;

fn conf(daemon: bool) -> ServerConf {
    ServerConf {
        daemon,
        upgrade_sock: String::from("/tmp/upgrade.sock"),
        threads: 3,
        work_stealing: true,
        grace_period_seconds: None,
        graceful_shutdown_timeout_seconds: None,
    }
}

fn server(conf: ServerConf, registry: bool) -> Server<u32, &'static str> {
    let options = Opt { upgrade: false, test: false, conf: None };
    let mut server = Server::new(Some(options), Some(conf)).unwrap();
    if registry {
        server.load_fds(Ok("fds"));
    }
    server.add_service(Service { name: String::from("a"), threads: Some(2), handle: 1 });
    server.add_service(Service { name: String::from("b"), threads: None, handle: 2 });
    server
}

/// A server that waits for its signal.
fn running(conf: ServerConf, registry: bool) -> Run {
    let (mut run, first) = server(conf, registry).run_forever();
    assert!(matches!(first, Action::StartServices(_)));
    assert!(matches!(run.step(Event::Completed), Some(Action::AwaitSignal { .. })));
    assert_eq!(run.phase(), Phase::Running);
    run
}

/// The actions that the events call for, in their order.
fn drive(run: &mut Run, events: &[Event]) -> Vec<Action<u32>> {
    let mut actions = Vec::new();
    for event in events {
        if let Some(action) = run.step(*event) {
            actions.push(action);
        }
    }
    actions
}

fn every_event() -> Vec<Event> {
    vec![
        Event::Completed,
        Event::Signal(Signal::Interrupt),
        Event::Signal(Signal::Terminate),
        Event::Signal(Signal::Quit),
        Event::FdsSent(Ok(3)),
        Event::FdsSent(Err(32)),
        Event::BroadcastSent { delivered: true },
        Event::BroadcastSent { delivered: false },
    ]
}

#[test]
fn run_forever_starts_the_services_last_one_first() {
    let (run, first) = server(conf(false), true).run_forever();
    assert_eq!(
        first,
        Action::StartServices(vec![
            ServiceStart {
                handle: 2,
                runtime: RuntimePlan { name: String::from("b"), threads: 3, flavor: Flavor::Steal },
            },
            ServiceStart {
                handle: 1,
                runtime: RuntimePlan { name: String::from("a"), threads: 2, flavor: Flavor::Steal },
            },
        ])
    );
    assert_eq!(run.phase(), Phase::Starting);
    assert_eq!(run.server().service_count(), 0);
    assert_eq!(run.signal(), None);
    assert_eq!(run.outcome(), None);
    assert!(!run.shutdown());
}

#[test]
fn run_forever_daemonizes_first() {
    let (mut run, first) = server(conf(true), true).run_forever();
    assert_eq!(first, Action::Daemonize);
    assert_eq!(run.phase(), Phase::Daemonizing);
    assert_eq!(run.server().service_count(), 2);
    let next = run.step(Event::Completed);
    assert!(matches!(next, Some(Action::StartServices(ref starts)) if starts.len() == 2));
    assert_eq!(run.phase(), Phase::Starting);
    assert_eq!(run.server().service_count(), 0);
}

#[test]
fn server_runtime_has_one_stealing_thread() {
    let (mut run, _) = server(conf(false), true).run_forever();
    assert_eq!(
        run.step(Event::Completed),
        Some(Action::AwaitSignal {
            runtime: RuntimePlan {
                name: String::from("Server"),
                threads: 1,
                flavor: Flavor::Steal
            }
        })
    );
}

#[test]
fn fast_exit_skips_the_grace_period() {
    let mut run = running(conf(false), true);
    let actions = drive(
        &mut run,
        &[Event::Signal(Signal::Interrupt), Event::Completed, Event::Completed, Event::Completed],
    );
    assert_eq!(
        actions,
        vec![Action::ShutdownRuntimes { timeout: 0 }, Action::Exit { code: 0 }]
    );
    assert_eq!(run.signal(), Some(ShutdownSignal::Fast));
    assert_eq!(run.outcome(), Some(ShutdownType::Quick));
    assert!(!run.shutdown());
    assert_eq!(run.phase(), Phase::Exited);
}

#[test]
fn graceful_termination_runs_its_course() {
    let mut run = running(conf(false), true);
    assert_eq!(run.step(Event::Signal(Signal::Terminate)), Some(Action::Broadcast));
    assert!(run.shutdown());
    assert_eq!(run.phase(), Phase::Broadcasting);
    assert_eq!(
        run.step(Event::BroadcastSent { delivered: true }),
        Some(Action::GraceWait { secs: 300 })
    );
    assert_eq!(run.outcome(), Some(ShutdownType::Graceful));
    assert_eq!(run.step(Event::Completed), Some(Action::ShutdownRuntimes { timeout: 5 }));
    assert_eq!(run.step(Event::Completed), Some(Action::Exit { code: 0 }));
    assert_eq!(run.phase(), Phase::Exited);
    assert_eq!(run.signal(), Some(ShutdownSignal::GracefulTerminate));
}

#[test]
fn graceful_termination_takes_the_configured_times() {
    let mut c = conf(false);
    c.grace_period_seconds = Some(40);
    c.graceful_shutdown_timeout_seconds = Some(9);
    let mut run = running(c, true);
    let actions = drive(
        &mut run,
        &[
            Event::Signal(Signal::Terminate),
            Event::BroadcastSent { delivered: true },
            Event::Completed,
            Event::Completed,
        ],
    );
    assert_eq!(
        actions,
        vec![
            Action::Broadcast,
            Action::GraceWait { secs: 40 },
            Action::ShutdownRuntimes { timeout: 9 },
            Action::Exit { code: 0 },
        ]
    );
}

#[test]
fn undelivered_broadcast_is_not_fatal() {
    let mut run = running(conf(false), true);
    let actions = drive(
        &mut run,
        &[
            Event::Signal(Signal::Terminate),
            Event::BroadcastSent { delivered: false },
            Event::Completed,
            Event::Completed,
        ],
    );
    assert_eq!(
        actions,
        vec![
            Action::Broadcast,
            Action::GraceWait { secs: 300 },
            Action::ShutdownRuntimes { timeout: 5 },
            Action::Exit { code: 0 },
        ]
    );
}

#[test]
fn graceful_upgrade_sends_waits_and_broadcasts() {
    let mut run = running(conf(false), true);
    assert_eq!(
        run.step(Event::Signal(Signal::Quit)),
        Some(Action::SendFds { path: String::from("/tmp/upgrade.sock") })
    );
    assert_eq!(run.phase(), Phase::SendingFds);
    assert_eq!(run.step(Event::FdsSent(Ok(4))), Some(Action::CloseWait { secs: 5 }));
    assert_eq!(run.phase(), Phase::Closing);
    assert!(!run.shutdown());
    assert_eq!(run.step(Event::Completed), Some(Action::Broadcast));
    assert!(run.shutdown());
    assert_eq!(
        run.step(Event::BroadcastSent { delivered: true }),
        Some(Action::GraceWait { secs: 300 })
    );
    assert_eq!(run.step(Event::Completed), Some(Action::ShutdownRuntimes { timeout: 5 }));
    assert_eq!(run.step(Event::Completed), Some(Action::Exit { code: 0 }));
    assert_eq!(run.signal(), Some(ShutdownSignal::GracefulUpgrade));
    assert_eq!(run.outcome(), Some(ShutdownType::Graceful));
}

#[test]
fn failed_handoff_still_broadcasts() {
    let mut failed = running(conf(false), true);
    let mut sent = running(conf(false), true);
    let tail = [
        Event::Completed,
        Event::BroadcastSent { delivered: true },
        Event::Completed,
        Event::Completed,
    ];
    let mut with_failure = drive(&mut failed, &[Event::Signal(Signal::Quit), Event::FdsSent(Err(111))]);
    with_failure.extend(drive(&mut failed, &tail));
    let mut with_success = drive(&mut sent, &[Event::Signal(Signal::Quit), Event::FdsSent(Ok(2))]);
    with_success.extend(drive(&mut sent, &tail));
    assert_eq!(with_failure, with_success);
    assert_eq!(with_failure[1], Action::CloseWait { secs: 5 });
    assert_eq!(with_failure[2], Action::Broadcast);
    assert!(failed.shutdown());
}

#[test]
fn upgrade_ends_as_termination() {
    let tail = [Event::BroadcastSent { delivered: false }, Event::Completed, Event::Completed];
    let mut upgraded = running(conf(false), true);
    let mut first = drive(
        &mut upgraded,
        &[Event::Signal(Signal::Quit), Event::FdsSent(Err(1)), Event::Completed],
    );
    first.extend(drive(&mut upgraded, &tail));
    let mut terminated = running(conf(false), true);
    let mut second = drive(&mut terminated, &[Event::Signal(Signal::Terminate)]);
    second.extend(drive(&mut terminated, &tail));
    assert_eq!(first[2..], second[..]);
}

#[test]
fn upgrade_without_registry_sends_nothing() {
    let mut run = running(conf(false), false);
    let actions = drive(
        &mut run,
        &[Event::Signal(Signal::Quit), Event::Completed, Event::Completed],
    );
    assert_eq!(
        actions,
        vec![
            Action::GraceWait { secs: 300 },
            Action::ShutdownRuntimes { timeout: 5 },
            Action::Exit { code: 0 },
        ]
    );
    assert!(!run.shutdown());
    assert_eq!(run.outcome(), Some(ShutdownType::Graceful));
}

#[test]
fn interrupt_ends_the_handoff() {
    let mut run = running(conf(false), true);
    let actions = drive(
        &mut run,
        &[
            Event::Signal(Signal::Quit),
            Event::Signal(Signal::Interrupt),
            Event::Completed,
            Event::Completed,
        ],
    );
    assert_eq!(
        actions,
        vec![
            Action::SendFds { path: String::from("/tmp/upgrade.sock") },
            Action::GraceWait { secs: 300 },
            Action::ShutdownRuntimes { timeout: 5 },
            Action::Exit { code: 0 },
        ]
    );
    assert!(!run.shutdown());
    assert_eq!(run.signal(), Some(ShutdownSignal::GracefulUpgrade));
    assert_eq!(run.outcome(), Some(ShutdownType::Graceful));
}

#[test]
fn interrupt_ends_the_close_wait() {
    let mut run = running(conf(false), true);
    let actions = drive(
        &mut run,
        &[
            Event::Signal(Signal::Quit),
            Event::FdsSent(Ok(1)),
            Event::Signal(Signal::Interrupt),
            Event::Completed,
            Event::Completed,
        ],
    );
    assert_eq!(
        actions,
        vec![
            Action::SendFds { path: String::from("/tmp/upgrade.sock") },
            Action::CloseWait { secs: 5 },
            Action::GraceWait { secs: 300 },
            Action::ShutdownRuntimes { timeout: 5 },
            Action::Exit { code: 0 },
        ]
    );
    assert!(!run.shutdown());
}

#[test]
fn other_signals_do_not_end_an_upgrade() {
    let mut run = running(conf(false), true);
    run.step(Event::Signal(Signal::Quit));
    assert_eq!(run.step(Event::Signal(Signal::Terminate)), None);
    assert_eq!(run.step(Event::Signal(Signal::Quit)), None);
    assert_eq!(run.step(Event::Completed), None);
    assert_eq!(run.phase(), Phase::SendingFds);
    run.step(Event::FdsSent(Ok(0)));
    assert_eq!(run.step(Event::Signal(Signal::Terminate)), None);
    assert_eq!(run.step(Event::FdsSent(Ok(0))), None);
    assert_eq!(run.phase(), Phase::Closing);
}

#[test]
fn grace_period_cannot_be_cut_short() {
    let mut run = running(conf(false), true);
    run.step(Event::Signal(Signal::Terminate));
    run.step(Event::BroadcastSent { delivered: true });
    assert_eq!(run.phase(), Phase::Draining);
    for signal in [Signal::Interrupt, Signal::Terminate, Signal::Quit] {
        assert_eq!(run.step(Event::Signal(signal)), None);
        assert_eq!(run.phase(), Phase::Draining);
    }
}

#[test]
fn first_signal_decides() {
    for (first, request) in [
        (Signal::Interrupt, ShutdownSignal::Fast),
        (Signal::Terminate, ShutdownSignal::GracefulTerminate),
        (Signal::Quit, ShutdownSignal::GracefulUpgrade),
    ] {
        let mut run = running(conf(false), true);
        assert_eq!(run.signal(), None);
        assert!(run.step(Event::Signal(first)).is_some());
        assert_eq!(run.signal(), Some(request));
        for event in every_event() {
            run.step(event);
            assert_eq!(run.signal(), Some(request));
        }
    }
}

#[test]
fn no_signal_is_resolved_before_the_server_waits() {
    let (mut run, _) = server(conf(true), true).run_forever();
    for signal in [Signal::Interrupt, Signal::Terminate, Signal::Quit] {
        assert_eq!(run.step(Event::Signal(signal)), None);
    }
    assert_eq!(run.phase(), Phase::Daemonizing);
    run.step(Event::Completed);
    for signal in [Signal::Interrupt, Signal::Terminate, Signal::Quit] {
        assert_eq!(run.step(Event::Signal(signal)), None);
    }
    assert_eq!(run.phase(), Phase::Starting);
    assert_eq!(run.signal(), None);
}

#[test]
fn shutdown_is_permanent() {
    let mut run = running(conf(false), true);
    run.step(Event::Signal(Signal::Terminate));
    assert!(run.shutdown());
    for _ in 0..3 {
        for event in every_event() {
            run.step(event);
            assert!(run.shutdown());
        }
    }
}

#[test]
fn shutdown_is_broadcast_once() {
    for first in [Signal::Interrupt, Signal::Terminate, Signal::Quit] {
        let mut run = running(conf(false), true);
        let mut events = vec![Event::Signal(first)];
        for _ in 0..4 {
            events.extend(every_event());
        }
        let actions = drive(&mut run, &events);
        let broadcasts = actions.iter().filter(|action| **action == Action::Broadcast).count();
        assert!(broadcasts <= 1);
        assert_eq!(broadcasts == 1, run.shutdown());
        let exits = actions.iter().filter(|a| matches!(a, Action::Exit { .. })).count();
        assert_eq!(exits, 1);
        assert_eq!(actions.last(), Some(&Action::Exit { code: 0 }));
    }
}

#[test]
fn exited_server_passes_every_event_over() {
    let mut run = running(conf(false), true);
    drive(&mut run, &[Event::Signal(Signal::Interrupt), Event::Completed]);
    assert_eq!(run.phase(), Phase::Exited);
    for event in every_event() {
        assert_eq!(run.step(event), None);
        assert_eq!(run.phase(), Phase::Exited);
    }
}

#[test]
fn events_out_of_place_change_nothing() {
    let mut run = running(conf(false), true);
    assert_eq!(run.step(Event::Completed), None);
    assert_eq!(run.step(Event::FdsSent(Ok(1))), None);
    assert_eq!(run.step(Event::BroadcastSent { delivered: true }), None);
    assert_eq!(run.phase(), Phase::Running);
    run.step(Event::Signal(Signal::Terminate));
    assert_eq!(run.step(Event::Completed), None);
    assert_eq!(run.step(Event::Signal(Signal::Interrupt)), None);
    assert_eq!(run.phase(), Phase::Broadcasting);
}
