//! Process signals and what they ask of the server.

use vstd::prelude::*;

verus! {

/// A process signal that the server listens for.
#[derive(Clone, Copy, Debug, PartialEq, Eq, Structural)]
pub enum Signal {
    /// The interrupt signal.
    Interrupt,
    /// The terminate signal.
    Terminate,
    /// The quit signal.
    Quit,
}

/// What a signal asks of the server.
#[derive(Clone, Copy, Debug, PartialEq, Eq, Structural)]
pub enum ShutdownSignal {
    /// Exit at once.
    Fast,
    /// Tell the services to stop, let them drain, then exit.
    GracefulTerminate,
    /// Hand the listening sockets to a successor process, then stop as for a
    /// graceful termination.
    GracefulUpgrade,
}

/// How the server leaves its main loop.
#[derive(Clone, Copy, Debug, PartialEq, Eq, Structural)]
pub enum ShutdownType {
    /// In-flight work is given time to finish.
    Graceful,
    /// Nothing is waited for.
    Quick,
}

/// The request that each signal stands for.
pub open spec fn classify(signal: Signal) -> ShutdownSignal {
    match signal {
        Signal::Interrupt => ShutdownSignal::Fast,
        Signal::Terminate => ShutdownSignal::GracefulTerminate,
        Signal::Quit => ShutdownSignal::GracefulUpgrade,
    }
}

/// The signal that stands for each request.
pub open spec fn signal_of(request: ShutdownSignal) -> Signal {
    match request {
        ShutdownSignal::Fast => Signal::Interrupt,
        ShutdownSignal::GracefulTerminate => Signal::Terminate,
        ShutdownSignal::GracefulUpgrade => Signal::Quit,
    }
}

/// Resolves the signal that ended the wait to the request it stands for.
pub fn wait_for_shutdown_signal(arrived: Signal) -> (request: ShutdownSignal)
    ensures
        request == classify(arrived),
{
    match arrived {
        Signal::Interrupt => ShutdownSignal::Fast,
        Signal::Terminate => ShutdownSignal::GracefulTerminate,
        Signal::Quit => ShutdownSignal::GracefulUpgrade,
    }
}

} // verus!
