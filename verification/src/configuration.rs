//! The settings and command-line options that the server reads.
//!
//! Loading and validating a configuration is the embedding program's work. The
//! types here hold what the lifecycle consults, nothing more.

use vstd::prelude::*;

verus! {

/// The command-line options.
#[derive(Clone, Debug, PartialEq, Eq)]
pub struct Opt {
    /// Take over the listening sockets of a running predecessor.
    pub upgrade: bool,
    /// Stop after the configuration has been checked.
    pub test: bool,
    /// The path of the configuration file, if one was given.
    pub conf: Option<String>,
}

/// The settings of a server.
#[derive(Clone, Debug, PartialEq, Eq)]
pub struct ServerConf {
    /// Detach from the terminal before the services start.
    pub daemon: bool,
    /// The path of the control socket over which listening sockets pass from
    /// a predecessor to its successor.
    pub upgrade_sock: String,
    /// The thread count of a service that names none of its own.
    pub threads: usize,
    /// Whether the threads of a service may take over each other's tasks.
    pub work_stealing: bool,
    /// How many seconds in-flight work gets to finish after a graceful
    /// shutdown has begun. `None` means [`EXIT_TIMEOUT`].
    pub grace_period_seconds: Option<u64>,
    /// How many seconds each runtime gets to stop after a graceful shutdown.
    /// `None` means [`RUNTIME_TIMEOUT`].
    pub graceful_shutdown_timeout_seconds: Option<u64>,
}

/// The seconds to wait before the process exits: the time that the sessions in
/// flight get to finish.
pub const EXIT_TIMEOUT: u64 = 300;

/// The seconds to wait before the services are told to stop listening: the
/// time that the successor gets to become ready.
pub const CLOSE_TIMEOUT: u64 = 5;

/// The seconds that a runtime gets to stop after a graceful shutdown.
pub const RUNTIME_TIMEOUT: u64 = 5;

/// What the contracts say of an [`Opt`].
pub struct OptView {
    pub upgrade: bool,
    pub test: bool,
    pub conf: Option<Seq<char>>,
}

/// What the contracts say of a [`ServerConf`].
pub struct ServerConfView {
    pub daemon: bool,
    pub upgrade_sock: Seq<char>,
    pub threads: usize,
    pub work_stealing: bool,
    pub grace_period_seconds: Option<u64>,
    pub graceful_shutdown_timeout_seconds: Option<u64>,
}

/// The characters of an optional string.
pub open spec fn text(s: Option<String>) -> Option<Seq<char>> {
    match s {
        Some(s) => Some(s@),
        None => None,
    }
}

impl View for Opt {
    type V = OptView;

    open spec fn view(&self) -> OptView {
        OptView { upgrade: self.upgrade, test: self.test, conf: text(self.conf) }
    }
}

impl View for ServerConf {
    type V = ServerConfView;

    open spec fn view(&self) -> ServerConfView {
        ServerConfView {
            daemon: self.daemon,
            upgrade_sock: self.upgrade_sock@,
            threads: self.threads,
            work_stealing: self.work_stealing,
            grace_period_seconds: self.grace_period_seconds,
            graceful_shutdown_timeout_seconds: self.graceful_shutdown_timeout_seconds,
        }
    }
}

/// The options that the contracts see, where there are any.
pub open spec fn opt_view(opt: Option<Opt>) -> Option<OptView> {
    match opt {
        Some(o) => Some(o@),
        None => None,
    }
}

impl ServerConfView {
    /// The seconds that in-flight work gets to finish.
    pub open spec fn grace_period(self) -> u64 {
        match self.grace_period_seconds {
            Some(secs) => secs,
            None => EXIT_TIMEOUT,
        }
    }

    /// The seconds that each runtime gets to stop after a graceful shutdown.
    pub open spec fn graceful_shutdown_timeout(self) -> u64 {
        match self.graceful_shutdown_timeout_seconds {
            Some(secs) => secs,
            None => RUNTIME_TIMEOUT,
        }
    }
}

impl ServerConf {
    /// The seconds that in-flight work gets to finish after a graceful
    /// shutdown has begun.
    pub fn grace_period(&self) -> (secs: u64)
        ensures
            secs == self@.grace_period(),
    {
        match self.grace_period_seconds {
            Some(secs) => secs,
            None => EXIT_TIMEOUT,
        }
    }

    /// The seconds that each runtime gets to stop after a graceful shutdown.
    pub fn graceful_shutdown_timeout(&self) -> (secs: u64)
        ensures
            secs == self@.graceful_shutdown_timeout(),
    {
        match self.graceful_shutdown_timeout_seconds {
            Some(secs) => secs,
            None => RUNTIME_TIMEOUT,
        }
    }
}

/// Where the configuration of a new server comes from.
#[derive(Clone, Copy, Debug, PartialEq, Eq, Structural)]
pub enum ConfSource {
    /// No options were given: the built-in settings.
    Default,
    /// Options without a file: the built-in settings with the options laid
    /// over them.
    OptOverride,
    /// Options that name a file: the file's settings with the options laid
    /// over them.
    YamlWithOptOverride,
}

impl ConfSource {
    /// The source that the given options call for.
    pub open spec fn of(opt: Option<OptView>) -> ConfSource {
        match opt {
            None => ConfSource::Default,
            Some(o) => if o.conf is Some {
                ConfSource::YamlWithOptOverride
            } else {
                ConfSource::OptOverride
            },
        }
    }

    /// Chooses where the configuration is to come from.
    pub fn select(opt: &Option<Opt>) -> (source: ConfSource)
        ensures
            source == ConfSource::of(opt_view(*opt)),
    {
        match opt {
            None => ConfSource::Default,
            Some(o) => match &o.conf {
                Some(_) => ConfSource::YamlWithOptOverride,
                None => ConfSource::OptOverride,
            },
        }
    }
}

} // verus!
