//! The life of a running server, from its start to the exit of the process.
//!
//! A [`Lifecycle`] never acts. It names the one [`Action`] that is to be
//! carried out next, and is told by an [`Event`] how that action ended. Which
//! action follows which event is all that is decided here, and all of it is.

use crate::configuration::CLOSE_TIMEOUT;
use crate::server::{Server, ServerView, EXIT_OK};
use crate::service::{
    create_runtime, start_views, starts_of, Flavor, RuntimePlan, RuntimePlanView, ServiceStart,
    ServiceStartView,
};
use crate::signal::{classify, wait_for_shutdown_signal, ShutdownSignal, ShutdownType, Signal};
use vstd::prelude::*;

verus! {

/// Where a running server stands. Each phase but the last waits for the end
/// of one action.
#[derive(Clone, Copy, Debug, PartialEq, Eq, Structural)]
pub enum Phase {
    /// The process is detaching from its terminal.
    Daemonizing,
    /// The services are being started.
    Starting,
    /// The services run, and the server waits for a signal.
    Running,
    /// The listening sockets are on their way to the successor.
    SendingFds,
    /// The successor is given time to become ready.
    Closing,
    /// The services are being told to shut down.
    Broadcasting,
    /// In-flight work is given time to finish.
    Draining,
    /// The runtimes are being shut down.
    Stopping,
    /// The process has been told to exit.
    Exited,
}

/// How an action ended, or what came in its way.
#[derive(Clone, Copy, Debug, PartialEq, Eq)]
pub enum Event {
    /// The action is done, and there is nothing to say of it.
    Completed,
    /// A signal arrived.
    Signal(Signal),
    /// The listening sockets were sent, with the number that went out, or
    /// could not be sent, with the operating system's error code.
    FdsSent(Result<usize, i32>),
    /// The shutdown was broadcast, and some service got it or none did.
    BroadcastSent { delivered: bool },
}

/// What the embedding program is to do next.
#[derive(Debug, PartialEq, Eq)]
pub enum Action<S> {
    /// Detach the process from its terminal, with every timer paused for the
    /// time of the fork. Ends with [`Event::Completed`].
    Daemonize,
    /// Create a runtime for each of these services, in this order, and start
    /// the service on it with the registry of listening sockets and a
    /// receiver of the shutdown broadcast. Ends with [`Event::Completed`] once
    /// all are started; no service is waited for.
    StartServices(Vec<ServiceStart<S>>),
    /// Create this runtime for the server itself and wait on it for the first
    /// interrupt, terminate or quit signal. Ends with [`Event::Signal`].
    AwaitSignal { runtime: RuntimePlan },
    /// Send every listening socket of the registry, held exclusively, over
    /// the control socket at this path. Ends with [`Event::FdsSent`], or with
    /// the [`Event::Signal`] of an interrupt that arrives first.
    SendFds { path: String },
    /// Sleep for this many seconds. Ends with [`Event::Completed`], or with
    /// the [`Event::Signal`] of an interrupt that arrives first.
    CloseWait { secs: u64 },
    /// Set the shutdown broadcast to true. Ends with
    /// [`Event::BroadcastSent`].
    Broadcast,
    /// Sleep for this many seconds. Nothing cuts this sleep short. Ends with
    /// [`Event::Completed`].
    GraceWait { secs: u64 },
    /// Shut every runtime down, all at the same time, and give each this many
    /// seconds. Ends with [`Event::Completed`] when the last one is done,
    /// whether or not each of them could be joined.
    ShutdownRuntimes { timeout: u64 },
    /// End the process with this exit code.
    Exit { code: i32 },
}

/// What the contracts say of an [`Action`].
pub enum ActionView<S> {
    Daemonize,
    StartServices(Seq<ServiceStartView<S>>),
    AwaitSignal { runtime: RuntimePlanView },
    SendFds { path: Seq<char> },
    CloseWait { secs: u64 },
    Broadcast,
    GraceWait { secs: u64 },
    ShutdownRuntimes { timeout: u64 },
    Exit { code: i32 },
}

impl<S> View for Action<S> {
    type V = ActionView<S>;

    open spec fn view(&self) -> ActionView<S> {
        match *self {
            Action::Daemonize => ActionView::Daemonize,
            Action::StartServices(starts) => ActionView::StartServices(start_views(starts@)),
            Action::AwaitSignal { runtime } => ActionView::AwaitSignal { runtime: runtime@ },
            Action::SendFds { path } => ActionView::SendFds { path: path@ },
            Action::CloseWait { secs } => ActionView::CloseWait { secs },
            Action::Broadcast => ActionView::Broadcast,
            Action::GraceWait { secs } => ActionView::GraceWait { secs },
            Action::ShutdownRuntimes { timeout } => ActionView::ShutdownRuntimes { timeout },
            Action::Exit { code } => ActionView::Exit { code },
        }
    }
}

/// The action that the contracts see, where there is one.
pub open spec fn action_view<S>(action: Option<Action<S>>) -> Option<ActionView<S>> {
    match action {
        Some(a) => Some(a@),
        None => None,
    }
}

/// The seconds that a runtime gets to stop when the server exits at once.
pub const QUICK_TIMEOUT: u64 = 0;

/// The runtime of the server itself: one thread, named "Server", that steals
/// work.
pub open spec fn control_runtime() -> RuntimePlanView {
    RuntimePlanView { name: "Server"@, threads: 1, flavor: Flavor::Steal }
}

/// A server that runs.
pub struct Lifecycle<S, F> {
    server: Server<S, F>,
    phase: Phase,
    signal: Option<ShutdownSignal>,
    shutdown: bool,
    outcome: Option<ShutdownType>,
}

/// What the contracts say of a [`Lifecycle`].
pub struct LifecycleView<S, F> {
    /// The server that runs.
    pub server: ServerView<S, F>,
    /// Where the server stands.
    pub phase: Phase,
    /// What the first signal asked for, once one has arrived.
    pub signal: Option<ShutdownSignal>,
    /// Whether the shutdown broadcast has been called for.
    pub shutdown: bool,
    /// How the server left its main loop, once it has.
    pub outcome: Option<ShutdownType>,
}

impl<S, F> LifecycleView<S, F> {
    /// How a server begins to run: it detaches first where its configuration
    /// says so, and starts its services otherwise.
    pub open spec fn run_forever(server: ServerView<S, F>) -> (Self, ActionView<S>) {
        let begun = LifecycleView {
            server,
            phase: Phase::Daemonizing,
            signal: None,
            shutdown: false,
            outcome: None,
        };
        if server.configuration.daemon {
            (begun, ActionView::Daemonize)
        } else {
            begun.start_services()
        }
    }

    /// Every registered service is to be started, and none stays registered.
    pub open spec fn start_services(self) -> (Self, ActionView<S>) {
        (
            LifecycleView {
                server: ServerView { services: Seq::empty(), ..self.server },
                phase: Phase::Starting,
                ..self
            },
            ActionView::StartServices(
                starts_of(
                    self.server.services,
                    self.server.configuration.threads,
                    self.server.configuration.work_stealing,
                ),
            ),
        )
    }

    /// The services are to be told to shut down.
    pub open spec fn broadcast(self) -> (Self, ActionView<S>) {
        (LifecycleView { phase: Phase::Broadcasting, shutdown: true, ..self }, ActionView::Broadcast)
    }

    /// The main loop is left. After a graceful shutdown in-flight work gets
    /// the grace period to finish; after a quick one the runtimes are shut
    /// down at once and get no time.
    pub open spec fn leave(self, how: ShutdownType) -> (Self, ActionView<S>) {
        match how {
            ShutdownType::Graceful => (
                LifecycleView { phase: Phase::Draining, outcome: Some(how), ..self },
                ActionView::GraceWait { secs: self.server.configuration.grace_period() },
            ),
            ShutdownType::Quick => (
                LifecycleView { phase: Phase::Stopping, outcome: Some(how), ..self },
                ActionView::ShutdownRuntimes { timeout: QUICK_TIMEOUT },
            ),
        }
    }

    /// What the first signal leads to. A fast exit leaves the main loop at
    /// once, and nothing is broadcast. A graceful termination broadcasts the
    /// shutdown. A graceful upgrade sends the listening sockets to the
    /// successor, or, where the server has no registry, leaves the main loop
    /// as a graceful shutdown does.
    pub open spec fn main_loop(self, request: ShutdownSignal) -> (Self, ActionView<S>) {
        let resolved = LifecycleView { signal: Some(request), ..self };
        match request {
            ShutdownSignal::Fast => resolved.leave(ShutdownType::Quick),
            ShutdownSignal::GracefulTerminate => resolved.broadcast(),
            ShutdownSignal::GracefulUpgrade => match self.server.send_fds() {
                Some(path) => (
                    LifecycleView { phase: Phase::SendingFds, ..resolved },
                    ActionView::SendFds { path },
                ),
                None => resolved.leave(ShutdownType::Graceful),
            },
        }
    }

    /// How a graceful upgrade goes on. Once the sockets were sent, or could
    /// not be sent, the successor gets the close timeout to become ready, and
    /// then the shutdown is broadcast. An interrupt ends the upgrade where it
    /// stands: what is left of it is skipped, and the main loop is left as a
    /// graceful shutdown leaves it. Any other event is passed over.
    pub open spec fn graceful_upgrade(self, event: Event) -> (Self, Option<ActionView<S>>) {
        match (self.phase, event) {
            (Phase::SendingFds, Event::FdsSent(_)) => (
                LifecycleView { phase: Phase::Closing, ..self },
                Some(ActionView::CloseWait { secs: CLOSE_TIMEOUT }),
            ),
            (Phase::Closing, Event::Completed) => (
                self.broadcast().0,
                Some(self.broadcast().1),
            ),
            (Phase::SendingFds, Event::Signal(Signal::Interrupt))
            | (Phase::Closing, Event::Signal(Signal::Interrupt)) => (
                self.leave(ShutdownType::Graceful).0,
                Some(self.leave(ShutdownType::Graceful).1),
            ),
            _ => (self, None),
        }
    }

    /// What holds of every state that a running server can be in.
    ///
    /// No service stays registered once the services are started. Until the
    /// first signal nothing is resolved, broadcast or left. An upgrade is
    /// under way only after a quit signal, with a registry to send and
    /// nothing broadcast yet. The shutdown has been called for while it is
    /// being broadcast, and never after a fast exit. The main loop is left
    /// quickly after a fast exit and gracefully after anything else.
    pub open spec fn inv(self) -> bool {
        &&& self.phase != Phase::Daemonizing ==> self.server.services.len() == 0
        &&& match self.phase {
            Phase::Daemonizing | Phase::Starting | Phase::Running => {
                &&& self.signal is None
                &&& !self.shutdown
                &&& self.outcome is None
            },
            Phase::SendingFds | Phase::Closing => {
                &&& self.signal == Some(ShutdownSignal::GracefulUpgrade)
                &&& self.server.listen_fds is Some
                &&& !self.shutdown
                &&& self.outcome is None
            },
            Phase::Broadcasting => {
                &&& self.signal is Some
                &&& self.signal != Some(ShutdownSignal::Fast)
                &&& self.shutdown
                &&& self.outcome is None
            },
            Phase::Draining => {
                &&& self.signal is Some
                &&& self.signal != Some(ShutdownSignal::Fast)
                &&& self.outcome == Some(ShutdownType::Graceful)
            },
            Phase::Stopping | Phase::Exited => {
                &&& self.signal is Some
                &&& self.outcome is Some
                &&& self.signal == Some(ShutdownSignal::Fast) <==> self.outcome == Some(
                    ShutdownType::Quick,
                )
                &&& self.signal == Some(ShutdownSignal::Fast) ==> !self.shutdown
            },
        }
    }

    /// What an event leads to: the state after it, and the action to carry
    /// out next. An event that the phase does not wait for changes nothing
    /// and calls for nothing.
    pub open spec fn next(self, event: Event) -> (Self, Option<ActionView<S>>) {
        match (self.phase, event) {
            (Phase::Daemonizing, Event::Completed) => (
                self.start_services().0,
                Some(self.start_services().1),
            ),
            (Phase::Starting, Event::Completed) => (
                LifecycleView { phase: Phase::Running, ..self },
                Some(ActionView::AwaitSignal { runtime: control_runtime() }),
            ),
            (Phase::Running, Event::Signal(signal)) => (
                self.main_loop(classify(signal)).0,
                Some(self.main_loop(classify(signal)).1),
            ),
            (Phase::SendingFds, _) | (Phase::Closing, _) => self.graceful_upgrade(event),
            (Phase::Broadcasting, Event::BroadcastSent { .. }) => (
                self.leave(ShutdownType::Graceful).0,
                Some(self.leave(ShutdownType::Graceful).1),
            ),
            (Phase::Draining, Event::Completed) => (
                LifecycleView { phase: Phase::Stopping, ..self },
                Some(
                    ActionView::ShutdownRuntimes {
                        timeout: self.server.configuration.graceful_shutdown_timeout(),
                    },
                ),
            ),
            (Phase::Stopping, Event::Completed) => (
                LifecycleView { phase: Phase::Exited, ..self },
                Some(ActionView::Exit { code: EXIT_OK }),
            ),
            _ => (self, None),
        }
    }
}

/// A server that begins to run is in a state that a running server can be in.
pub proof fn run_begins_valid<S, F>(server: ServerView<S, F>)
    ensures
        LifecycleView::run_forever(server).0.inv(),
{
}

/// No event leads out of the states that a running server can be in.
pub proof fn next_stays_valid<S, F>(s: LifecycleView<S, F>, event: Event)
    requires
        s.inv(),
    ensures
        s.next(event).0.inv(),
{
}

impl<S, F> View for Lifecycle<S, F> {
    type V = LifecycleView<S, F>;

    closed spec fn view(&self) -> LifecycleView<S, F> {
        LifecycleView {
            server: self.server@,
            phase: self.phase,
            signal: self.signal,
            shutdown: self.shutdown,
            outcome: self.outcome,
        }
    }
}

impl<S, F> Server<S, F> {
    /// Begins to run the server, which is used up by it, and says what is to
    /// be done first.
    ///
    /// Where the configuration asks for a daemon, the process detaches before
    /// anything else is started. Otherwise every registered service is
    /// started, as [`Server::run_services`] plans it.
    pub fn run_forever(self) -> (begun: (Lifecycle<S, F>, Action<S>))
        ensures
            begun.0@ == LifecycleView::run_forever(self@).0,
            begun.1@ == LifecycleView::run_forever(self@).1,
            begun.0@.inv(),
    {
        let daemon = self.configuration().daemon;
        let mut lifecycle = Lifecycle {
            server: self,
            phase: Phase::Daemonizing,
            signal: None,
            shutdown: false,
            outcome: None,
        };
        if daemon {
            (lifecycle, Action::Daemonize)
        } else {
            let first = lifecycle.start_services();
            (lifecycle, first)
        }
    }
}

impl<S, F> Lifecycle<S, F> {
    /// Where the server stands.
    pub fn phase(&self) -> (phase: Phase)
        ensures
            phase == self@.phase,
    {
        self.phase
    }

    /// Whether the shutdown broadcast has been called for.
    pub fn shutdown(&self) -> (shutdown: bool)
        ensures
            shutdown == self@.shutdown,
    {
        self.shutdown
    }

    /// What the first signal asked for, once one has arrived.
    pub fn signal(&self) -> (signal: Option<ShutdownSignal>)
        ensures
            signal == self@.signal,
    {
        self.signal
    }

    /// How the server left its main loop, once it has.
    pub fn outcome(&self) -> (outcome: Option<ShutdownType>)
        ensures
            outcome == self@.outcome,
    {
        self.outcome
    }

    /// The server that runs.
    pub fn server(&self) -> (server: &Server<S, F>)
        ensures
            server@ == self@.server,
    {
        &self.server
    }

    fn start_services(&mut self) -> (action: Action<S>)
        ensures
            final(self)@ == old(self)@.start_services().0,
            action@ == old(self)@.start_services().1,
    {
        let starts = self.server.run_services();
        self.phase = Phase::Starting;
        Action::StartServices(starts)
    }

    fn broadcast(&mut self) -> (action: Action<S>)
        ensures
            final(self)@ == old(self)@.broadcast().0,
            action@ == old(self)@.broadcast().1,
    {
        self.phase = Phase::Broadcasting;
        self.shutdown = true;
        Action::Broadcast
    }

    fn leave(&mut self, how: ShutdownType) -> (action: Action<S>)
        ensures
            final(self)@ == old(self)@.leave(how).0,
            action@ == old(self)@.leave(how).1,
    {
        self.outcome = Some(how);
        match how {
            ShutdownType::Graceful => {
                self.phase = Phase::Draining;
                Action::GraceWait { secs: self.server.configuration().grace_period() }
            },
            ShutdownType::Quick => {
                self.phase = Phase::Stopping;
                Action::ShutdownRuntimes { timeout: QUICK_TIMEOUT }
            },
        }
    }

    fn main_loop(&mut self, request: ShutdownSignal) -> (action: Action<S>)
        ensures
            final(self)@ == old(self)@.main_loop(request).0,
            action@ == old(self)@.main_loop(request).1,
    {
        self.signal = Some(request);
        match request {
            ShutdownSignal::Fast => self.leave(ShutdownType::Quick),
            ShutdownSignal::GracefulTerminate => self.broadcast(),
            ShutdownSignal::GracefulUpgrade => match self.server.send_fds() {
                Some(path) => {
                    self.phase = Phase::SendingFds;
                    Action::SendFds { path }
                },
                None => self.leave(ShutdownType::Graceful),
            },
        }
    }

    fn graceful_upgrade(&mut self, event: Event) -> (action: Option<Action<S>>)
        ensures
            final(self)@ == old(self)@.graceful_upgrade(event).0,
            action_view(action) == old(self)@.graceful_upgrade(event).1,
    {
        match self.phase {
            Phase::SendingFds => match event {
                Event::FdsSent(_) => {
                    self.phase = Phase::Closing;
                    Some(Action::CloseWait { secs: CLOSE_TIMEOUT })
                },
                Event::Signal(Signal::Interrupt) => Some(self.leave(ShutdownType::Graceful)),
                _ => None,
            },
            Phase::Closing => match event {
                Event::Completed => Some(self.broadcast()),
                Event::Signal(Signal::Interrupt) => Some(self.leave(ShutdownType::Graceful)),
                _ => None,
            },
            _ => None,
        }
    }

    /// Takes the event that ended the last action and names the next one.
    ///
    /// `None` says that the event is not one that the server waits for where
    /// it stands: nothing has changed, and the last action is still the one
    /// to end.
    pub fn step(&mut self, event: Event) -> (action: Option<Action<S>>)
        ensures
            final(self)@ == old(self)@.next(event).0,
            action_view(action) == old(self)@.next(event).1,
            old(self)@.inv() ==> final(self)@.inv(),
    {
        match self.phase {
            Phase::Daemonizing => match event {
                Event::Completed => Some(self.start_services()),
                _ => None,
            },
            Phase::Starting => match event {
                Event::Completed => {
                    self.phase = Phase::Running;
                    let runtime = create_runtime("Server".to_owned(), 1, true);
                    Some(Action::AwaitSignal { runtime })
                },
                _ => None,
            },
            Phase::Running => match event {
                Event::Signal(signal) => Some(self.main_loop(wait_for_shutdown_signal(signal))),
                _ => None,
            },
            Phase::SendingFds | Phase::Closing => self.graceful_upgrade(event),
            Phase::Broadcasting => match event {
                Event::BroadcastSent { .. } => Some(self.leave(ShutdownType::Graceful)),
                _ => None,
            },
            Phase::Draining => match event {
                Event::Completed => {
                    self.phase = Phase::Stopping;
                    let timeout = self.server.configuration().graceful_shutdown_timeout();
                    Some(Action::ShutdownRuntimes { timeout })
                },
                _ => None,
            },
            Phase::Stopping => match event {
                Event::Completed => {
                    self.phase = Phase::Exited;
                    Some(Action::Exit { code: EXIT_OK })
                },
                _ => None,
            },
            Phase::Exited => None,
        }
    }
}

} // verus!
