//! What holds of every server, whatever happens to it.
//!
//! The laws speak of [`LifecycleView::next`], which [`Lifecycle::step`]
//! follows to the letter, and of runs: the events that reach a server one
//! after the other, and the actions that it calls for on the way.
//!
//! [`Lifecycle::step`]: crate::lifecycle::Lifecycle::step

use crate::configuration::{ServerConfView, CLOSE_TIMEOUT};
use crate::lifecycle::{next_stays_valid, ActionView, Event, LifecycleView, Phase};
use crate::server::{BootstrapView, ServerView, EXIT_OK};
use crate::signal::{classify, signal_of, ShutdownSignal, ShutdownType, Signal};
use vstd::prelude::*;

verus! {

impl<S, F> LifecycleView<S, F> {
    /// The state that a run of events leaves.
    pub open spec fn after(self, events: Seq<Event>) -> Self
        decreases events.len(),
    {
        if events.len() == 0 {
            self
        } else {
            self.next(events[0]).0.after(events.drop_first())
        }
    }

    /// The actions that a run of events calls for, in their order.
    pub open spec fn actions(self, events: Seq<Event>) -> Seq<ActionView<S>>
        decreases events.len(),
    {
        if events.len() == 0 {
            Seq::empty()
        } else {
            let rest = self.next(events[0]).0.actions(events.drop_first());
            match self.next(events[0]).1 {
                Some(action) => seq![action] + rest,
                None => rest,
            }
        }
    }

    /// Whether the main loop has been left, or is about to be: nothing is
    /// broadcast from here on.
    pub open spec fn past_broadcast(self) -> bool {
        self.phase == Phase::Broadcasting || self.phase == Phase::Draining || self.phase
            == Phase::Stopping || self.phase == Phase::Exited
    }
}

/// How often the shutdown broadcast occurs among the actions.
pub open spec fn broadcasts<S>(actions: Seq<ActionView<S>>) -> nat
    decreases actions.len(),
{
    if actions.len() == 0 {
        0
    } else {
        let first: nat = if actions[0] is Broadcast {
            1
        } else {
            0
        };
        first + broadcasts(actions.drop_first())
    }
}

/// A run that begins with one event goes on from the state that the event
/// leaves, and its actions begin with the action that the event calls for.
pub proof fn run_unfolds<S, F>(s: LifecycleView<S, F>, first: Event, later: Seq<Event>)
    ensures
        s.after(seq![first] + later) == s.next(first).0.after(later),
        s.actions(seq![first] + later) == match s.next(first).1 {
            Some(action) => seq![action] + s.next(first).0.actions(later),
            None => s.next(first).0.actions(later),
        },
{
    let events = seq![first] + later;
    assert(events[0] == first);
    assert(events.drop_first() =~= later);
}

/// No run of events leads out of the states that a running server can be in.
pub proof fn run_stays_valid<S, F>(s: LifecycleView<S, F>, events: Seq<Event>)
    requires
        s.inv(),
    ensures
        s.after(events).inv(),
    decreases events.len(),
{
    if events.len() > 0 {
        next_stays_valid(s, events[0]);
        run_stays_valid(s.next(events[0]).0, events.drop_first());
    }
}

/// Each of the three signals asks for one thing, no two of them for the same,
/// and each of the three requests has its signal.
pub proof fn each_signal_has_its_request()
    ensures
        classify(Signal::Interrupt) == ShutdownSignal::Fast,
        classify(Signal::Terminate) == ShutdownSignal::GracefulTerminate,
        classify(Signal::Quit) == ShutdownSignal::GracefulUpgrade,
        forall|a: Signal, b: Signal| classify(a) == classify(b) ==> a == b,
        forall|request: ShutdownSignal| classify(#[trigger] signal_of(request)) == request,
{
}

/// What a server has resolved, it has resolved for good: no run of events
/// makes it resolve another request or forget the one it has.
pub proof fn request_is_resolved_once<S, F>(s: LifecycleView<S, F>, events: Seq<Event>)
    requires
        s.inv(),
        s.signal is Some,
    ensures
        s.after(events).signal == s.signal,
    decreases events.len(),
{
    if events.len() > 0 {
        next_stays_valid(s, events[0]);
        request_is_resolved_once(s.next(events[0]).0, events.drop_first());
    }
}

/// The first signal that reaches a waiting server decides: the server
/// resolves what that signal asks for, and whatever comes later, other
/// signals among it, leaves that as it is.
pub proof fn first_signal_decides<S, F>(s: LifecycleView<S, F>, signal: Signal, later: Seq<Event>)
    requires
        s.inv(),
        s.phase == Phase::Running,
    ensures
        s.signal is None,
        s.next(Event::Signal(signal)).0.signal == Some(classify(signal)),
        s.after(seq![Event::Signal(signal)] + later).signal == Some(classify(signal)),
{
    let first = Event::Signal(signal);
    run_unfolds(s, first, later);
    next_stays_valid(s, first);
    request_is_resolved_once(s.next(first).0, later);
}

/// Nothing takes the shutdown back: once it has been called for, it stays
/// called for after every run of events.
pub proof fn shutdown_is_permanent<S, F>(s: LifecycleView<S, F>, events: Seq<Event>)
    requires
        s.shutdown,
    ensures
        s.after(events).shutdown,
    decreases events.len(),
{
    if events.len() > 0 {
        shutdown_is_permanent(s.next(events[0]).0, events.drop_first());
    }
}

/// To call for the shutdown a second time changes nothing: the state is what
/// the first call left.
pub proof fn broadcast_is_idempotent<S, F>(s: LifecycleView<S, F>)
    ensures
        s.broadcast().0.shutdown,
        s.broadcast().0.broadcast() == s.broadcast(),
{
}

/// Once the main loop has been left, or the shutdown is being broadcast, no
/// run of events calls for the broadcast.
pub proof fn no_broadcast_past_broadcast<S, F>(s: LifecycleView<S, F>, events: Seq<Event>)
    requires
        s.past_broadcast(),
    ensures
        broadcasts(s.actions(events)) == 0,
        s.after(events).past_broadcast(),
    decreases events.len(),
{
    if events.len() > 0 {
        let then = s.next(events[0]).0;
        let rest = then.actions(events.drop_first());
        no_broadcast_past_broadcast(then, events.drop_first());
        match s.next(events[0]).1 {
            Some(action) => {
                let all = seq![action] + rest;
                assert(all[0] == action);
                assert(all.drop_first() =~= rest);
            },
            None => {},
        }
    }
}

/// The shutdown is broadcast once at most: no run of events calls for the
/// broadcast twice, and none calls for it again once it has been called for.
pub proof fn shutdown_is_broadcast_once<S, F>(s: LifecycleView<S, F>, events: Seq<Event>)
    requires
        s.inv(),
    ensures
        broadcasts(s.actions(events)) <= 1,
        s.shutdown ==> broadcasts(s.actions(events)) == 0,
    decreases events.len(),
{
    if s.past_broadcast() {
        no_broadcast_past_broadcast(s, events);
    } else if events.len() > 0 {
        let then = s.next(events[0]).0;
        let rest = then.actions(events.drop_first());
        next_stays_valid(s, events[0]);
        shutdown_is_broadcast_once(then, events.drop_first());
        match s.next(events[0]).1 {
            Some(action) => {
                let all = seq![action] + rest;
                assert(all[0] == action);
                assert(all.drop_first() =~= rest);
                if action is Broadcast {
                    no_broadcast_past_broadcast(then, events.drop_first());
                }
            },
            None => {},
        }
    }
}

/// Whether the sockets reach the successor or not, the upgrade goes on in the
/// same way: the successor gets the close timeout, and then the shutdown is
/// broadcast.
pub proof fn failed_handoff_still_broadcasts<S, F>(
    s: LifecycleView<S, F>,
    sent: Result<usize, i32>,
)
    requires
        s.phase == Phase::SendingFds,
    ensures
        s.next(Event::FdsSent(sent)) == s.next(Event::FdsSent(Ok(0))),
        s.actions(seq![Event::FdsSent(sent), Event::Completed]) == seq![
            ActionView::<S>::CloseWait { secs: CLOSE_TIMEOUT },
            ActionView::<S>::Broadcast,
        ],
        s.after(seq![Event::FdsSent(sent), Event::Completed]).shutdown,
        s.after(seq![Event::FdsSent(sent), Event::Completed]).phase == Phase::Broadcasting,
{
    let closing = s.next(Event::FdsSent(sent)).0;
    let last = seq![Event::Completed];
    assert(seq![Event::FdsSent(sent), Event::Completed] =~= seq![Event::FdsSent(sent)] + last);
    run_unfolds(s, Event::FdsSent(sent), last);
    assert(last =~= seq![Event::Completed] + Seq::<Event>::empty());
    run_unfolds(closing, Event::Completed, Seq::empty());
    assert(s.actions(seq![Event::FdsSent(sent), Event::Completed]) =~= seq![
        ActionView::<S>::CloseWait { secs: CLOSE_TIMEOUT },
        ActionView::<S>::Broadcast,
    ]);
}

/// What a server has resolved is a record: two servers that differ in it
/// alone call for the same actions in every run of events.
pub proof fn request_is_a_record<S, F>(
    s: LifecycleView<S, F>,
    t: LifecycleView<S, F>,
    events: Seq<Event>,
)
    requires
        s == (LifecycleView { signal: s.signal, ..t }),
    ensures
        s.actions(events) == t.actions(events),
    decreases events.len(),
{
    if events.len() > 0 {
        let s1 = s.next(events[0]).0;
        let t1 = t.next(events[0]).0;
        assert(s1 == (LifecycleView { signal: s1.signal, ..t1 }));
        assert(s.next(events[0]).1 == t.next(events[0]).1);
        request_is_a_record(s1, t1, events.drop_first());
    }
}

/// An upgrade ends as a graceful termination does. Once the sockets were
/// sent, or could not be sent, and the close timeout is over, the server goes
/// on as if it had been told to terminate: from the broadcast on, the same
/// actions follow the same events.
pub proof fn upgrade_ends_as_termination<S, F>(
    s: LifecycleView<S, F>,
    sent: Result<usize, i32>,
    later: Seq<Event>,
)
    requires
        s.phase == Phase::Running,
        s.server.listen_fds is Some,
    ensures
        s.actions(
            seq![Event::Signal(Signal::Quit), Event::FdsSent(sent), Event::Completed] + later,
        ) == seq![
            ActionView::<S>::SendFds { path: s.server.configuration.upgrade_sock },
            ActionView::<S>::CloseWait { secs: CLOSE_TIMEOUT },
        ] + s.actions(seq![Event::Signal(Signal::Terminate)] + later),
{
    let quit = Event::Signal(Signal::Quit);
    let upgrade = seq![quit, Event::FdsSent(sent), Event::Completed] + later;
    let sending = s.next(quit).0;
    let closing = sending.next(Event::FdsSent(sent)).0;
    let upgraded = closing.next(Event::Completed).0;
    assert(upgrade =~= seq![quit] + (seq![Event::FdsSent(sent)] + (seq![Event::Completed]
        + later)));
    run_unfolds(s, quit, seq![Event::FdsSent(sent)] + (seq![Event::Completed] + later));
    run_unfolds(sending, Event::FdsSent(sent), seq![Event::Completed] + later);
    run_unfolds(closing, Event::Completed, later);
    let terminated = s.next(Event::Signal(Signal::Terminate)).0;
    run_unfolds(s, Event::Signal(Signal::Terminate), later);
    request_is_a_record(upgraded, terminated, later);
    assert(s.actions(upgrade) =~= seq![
        ActionView::<S>::SendFds { path: s.server.configuration.upgrade_sock },
        ActionView::<S>::CloseWait { secs: CLOSE_TIMEOUT },
    ] + s.actions(seq![Event::Signal(Signal::Terminate)] + later));
}

/// After a fast exit nothing is waited for and nothing is broadcast. The
/// runtimes are shut down at once and get no time, and all that can follow
/// is the exit of the process.
pub proof fn fast_exit_skips_grace_period<S, F>(s: LifecycleView<S, F>, later: Seq<Event>)
    requires
        s.phase == Phase::Running,
    ensures
        ({
            let actions = s.actions(seq![Event::Signal(Signal::Interrupt)] + later);
            &&& actions.len() >= 1
            &&& actions[0] == ActionView::<S>::ShutdownRuntimes { timeout: 0 }
            &&& forall|i: int|
                1 <= i < actions.len() ==> #[trigger] actions[i] == ActionView::<S>::Exit {
                    code: 0,
                }
        }),
        s.after(seq![Event::Signal(Signal::Interrupt)] + later).outcome == Some(
            ShutdownType::Quick,
        ),
        !s.shutdown ==> !s.after(seq![Event::Signal(Signal::Interrupt)] + later).shutdown,
{
    let interrupt = Event::Signal(Signal::Interrupt);
    run_unfolds(s, interrupt, later);
    only_the_exit_is_left(s.next(interrupt).0, later);
}

/// The exit of the process with exit code 0.
pub open spec fn the_exit<S>() -> ActionView<S> {
    ActionView::Exit { code: EXIT_OK }
}

/// Once the runtimes are being shut down, all that a run of events can call
/// for is the exit of the process, with exit code 0.
pub proof fn only_the_exit_is_left<S, F>(s: LifecycleView<S, F>, events: Seq<Event>)
    requires
        s.phase == Phase::Stopping || s.phase == Phase::Exited,
    ensures
        forall|i: int|
            0 <= i < s.actions(events).len() ==> #[trigger] s.actions(events)[i] == the_exit::<S>(),
        s.after(events).outcome == s.outcome,
        s.after(events).shutdown == s.shutdown,
    decreases events.len(),
{
    if events.len() > 0 {
        only_the_exit_is_left(s.next(events[0]).0, events.drop_first());
    }
}

/// The events of a graceful termination that nothing comes in the way of: the
/// terminate signal, the end of the broadcast, of the grace period and of the
/// shutdown of the runtimes.
pub open spec fn termination(delivered: bool) -> Seq<Event> {
    seq![
        Event::Signal(Signal::Terminate),
        Event::BroadcastSent { delivered },
        Event::Completed,
        Event::Completed,
    ]
}

/// The actions of a graceful shutdown from the broadcast on, under the given
/// configuration.
pub open spec fn graceful_course<S>(conf: ServerConfView) -> Seq<ActionView<S>> {
    seq![
        ActionView::Broadcast,
        ActionView::GraceWait { secs: conf.grace_period() },
        ActionView::ShutdownRuntimes { timeout: conf.graceful_shutdown_timeout() },
        ActionView::Exit { code: EXIT_OK },
    ]
}

/// The seconds that in-flight work gets to finish under the server's
/// configuration.
pub open spec fn grace_period_of<S, F>(s: LifecycleView<S, F>) -> u64 {
    s.server.configuration.grace_period()
}

/// The seconds that each runtime gets to stop after a graceful shutdown under
/// the server's configuration.
pub open spec fn timeout_of<S, F>(s: LifecycleView<S, F>) -> u64 {
    s.server.configuration.graceful_shutdown_timeout()
}

/// A graceful termination, step by step: the shutdown is broadcast; whether
/// or not any service got it, in-flight work gets the grace period; then each
/// runtime gets the graceful shutdown timeout; then the process exits with
/// code 0. Where the configuration names no times, the grace period is 300
/// seconds and the timeout 5.
pub proof fn graceful_termination_runs_its_course<S, F>(s: LifecycleView<S, F>, delivered: bool)
    requires
        s.phase == Phase::Running,
    ensures
        s.actions(termination(delivered)) == graceful_course::<S>(s.server.configuration),
        (s.server.configuration.grace_period_seconds is None) ==> grace_period_of(s) == 300,
        (s.server.configuration.graceful_shutdown_timeout_seconds is None) ==> timeout_of(s) == 5,
{
    let e0 = Event::Signal(Signal::Terminate);
    let e1 = Event::BroadcastSent { delivered };
    let e2 = Event::Completed;
    let s1 = s.next(e0).0;
    let s2 = s1.next(e1).0;
    let s3 = s2.next(e2).0;
    let none = Seq::<Event>::empty();
    assert(seq![e0, e1, e2, e2] =~= seq![e0] + (seq![e1] + (seq![e2] + (seq![e2] + none))));
    run_unfolds(s, e0, seq![e1] + (seq![e2] + (seq![e2] + none)));
    run_unfolds(s1, e1, seq![e2] + (seq![e2] + none));
    run_unfolds(s2, e2, seq![e2] + none);
    run_unfolds(s3, e2, none);
    assert(termination(delivered) =~= seq![e0, e1, e2, e2]);
    assert(s.actions(seq![e0, e1, e2, e2]) =~= graceful_course::<S>(s.server.configuration));
}

/// Whether or not any service got the broadcast, the server goes on in the
/// same way.
pub proof fn undelivered_broadcast_changes_nothing<S, F>(s: LifecycleView<S, F>)
    ensures
        s.next(Event::BroadcastSent { delivered: false }) == s.next(
            Event::BroadcastSent { delivered: true },
        ),
{
}

/// An interrupt ends an upgrade where it stands: the shutdown is not
/// broadcast, neither then nor later, and the main loop is left as a graceful
/// shutdown leaves it.
pub proof fn interrupt_ends_upgrade<S, F>(s: LifecycleView<S, F>, later: Seq<Event>)
    requires
        s.phase == Phase::SendingFds || s.phase == Phase::Closing,
    ensures
        s.next(Event::Signal(Signal::Interrupt)).1 == Some(
            ActionView::<S>::GraceWait { secs: s.server.configuration.grace_period() },
        ),
        s.next(Event::Signal(Signal::Interrupt)).0.outcome == Some(ShutdownType::Graceful),
        broadcasts(s.actions(seq![Event::Signal(Signal::Interrupt)] + later)) == 0,
{
    let interrupt = Event::Signal(Signal::Interrupt);
    let then = s.next(interrupt).0;
    run_unfolds(s, interrupt, later);
    no_broadcast_past_broadcast(then, later);
    let all = seq![s.next(interrupt).1.unwrap()] + then.actions(later);
    assert(all.drop_first() =~= then.actions(later));
}

/// A server that was not asked to upgrade reads nothing from the control
/// socket: it is to get an empty registry, unless all it was asked for is a
/// check of its configuration.
pub proof fn fresh_start_reads_nothing<S, F>(server: ServerView<S, F>)
    requires
        !server.upgrade(),
    ensures
        !(server.bootstrap() is InheritFds),
        !server.test() ==> server.bootstrap() == BootstrapView::FreshFds,
        server.test() ==> server.bootstrap() == (BootstrapView::Exit { code: 0 }),
{
}

} // verus!
