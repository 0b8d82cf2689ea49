//! The server: what is registered with it, and how it is made ready to run.

use crate::configuration::{opt_view, text, Opt, OptView, ServerConf, ServerConfView};
use crate::service::{
    effective_threads, run_service, service_views, start_views, starts_of, Service, ServiceStart,
    ServiceView,
};
use vstd::prelude::*;

verus! {

/// Why a server could not be made.
#[derive(Clone, Copy, Debug, PartialEq, Eq, Structural)]
pub enum Error {
    /// No configuration could be generated. This is an error of reading.
    ConfGeneration,
}

impl Error {
    /// What went wrong, in words.
    pub fn context(&self) -> (words: &'static str)
        ensures
            words@ == "Conf generation failed"@,
    {
        match self {
            Error::ConfGeneration => "Conf generation failed",
        }
    }
}

/// The exit code of a process that did what it was asked to do.
pub const EXIT_OK: i32 = 0;

/// The exit code of a process that could not get its listening sockets.
pub const EXIT_BOOTSTRAP_FAILED: i32 = 1;

/// What is to happen next while a server is made ready.
#[derive(Debug, PartialEq, Eq)]
pub enum Bootstrap {
    /// End the process with this exit code.
    Exit { code: i32 },
    /// Make an empty registry of listening sockets and hand it to
    /// [`Server::load_fds`]. Nothing is read from the control socket.
    FreshFds,
    /// Receive the predecessor's listening sockets over the control socket at
    /// this path and hand the outcome to [`Server::load_fds`].
    InheritFds { path: String },
    /// The server is ready: it has its registry of listening sockets.
    Ready,
}

/// What the contracts say of a [`Bootstrap`].
pub enum BootstrapView {
    Exit { code: i32 },
    FreshFds,
    InheritFds { path: Seq<char> },
    Ready,
}

impl View for Bootstrap {
    type V = BootstrapView;

    open spec fn view(&self) -> BootstrapView {
        match *self {
            Bootstrap::Exit { code } => BootstrapView::Exit { code },
            Bootstrap::FreshFds => BootstrapView::FreshFds,
            Bootstrap::InheritFds { path } => BootstrapView::InheritFds { path: path@ },
            Bootstrap::Ready => BootstrapView::Ready,
        }
    }
}

/// One server process, which may hold many independent services.
///
/// `S` is what the embedding program runs as a service, `F` its registry of
/// listening sockets. The server keeps both and looks into neither.
pub struct Server<S, F> {
    services: Vec<Service<S>>,
    listen_fds: Option<F>,
    configuration: ServerConf,
    options: Option<Opt>,
    sentry: Option<String>,
}

/// What the contracts say of a [`Server`].
pub struct ServerView<S, F> {
    /// The registered services that have not been started, in the order of
    /// registration.
    pub services: Seq<ServiceView<S>>,
    /// The registry of listening sockets, once the server has one.
    pub listen_fds: Option<F>,
    /// The settings of the server.
    pub configuration: ServerConfView,
    /// The command-line options, if there are any.
    pub options: Option<OptView>,
    /// Where errors are reported to, if anywhere.
    pub sentry: Option<Seq<char>>,
}

impl<S, F> ServerView<S, F> {
    /// Whether the server was asked only to check its configuration.
    pub open spec fn test(self) -> bool {
        self.options matches Some(o) && o.test
    }

    /// Whether the server was asked to take over a predecessor's sockets.
    pub open spec fn upgrade(self) -> bool {
        self.options matches Some(o) && o.upgrade
    }

    /// What making the server ready begins with: nothing but the exit where
    /// only a check was asked for, the predecessor's sockets where an upgrade
    /// was asked for, and an empty registry otherwise.
    pub open spec fn bootstrap(self) -> BootstrapView {
        if self.test() {
            BootstrapView::Exit { code: EXIT_OK }
        } else if self.upgrade() {
            BootstrapView::InheritFds { path: self.configuration.upgrade_sock }
        } else {
            BootstrapView::FreshFds
        }
    }

    /// The path of the control socket to send the listening sockets over, if
    /// the server has any registry to send.
    pub open spec fn send_fds(self) -> Option<Seq<char>> {
        if self.listen_fds is Some {
            Some(self.configuration.upgrade_sock)
        } else {
            None
        }
    }
}

impl<S, F> View for Server<S, F> {
    type V = ServerView<S, F>;

    closed spec fn view(&self) -> ServerView<S, F> {
        ServerView {
            services: service_views(self.services@),
            listen_fds: self.listen_fds,
            configuration: self.configuration@,
            options: opt_view(self.options),
            sentry: text(self.sentry),
        }
    }
}

impl<S, F> Server<S, F> {
    /// Makes a server from the command-line options and from the
    /// configuration that was generated for them, see
    /// [`ConfSource::select`](crate::configuration::ConfSource::select).
    ///
    /// Without a configuration there is no server. A new server has no
    /// services, no registry of listening sockets and nowhere to report to.
    pub fn new(opt: Option<Opt>, conf: Option<ServerConf>) -> (made: Result<Server<S, F>, Error>)
        ensures
            match conf {
                Some(conf) => made matches Ok(server) && server@ == (ServerView::<S, F> {
                    services: Seq::empty(),
                    listen_fds: None,
                    configuration: conf@,
                    options: opt_view(opt),
                    sentry: None,
                }),
                None => made matches Err(e) && e == Error::ConfGeneration,
            },
    {
        match conf {
            Some(conf) => {
                let server = Server {
                    services: Vec::new(),
                    listen_fds: None,
                    configuration: conf,
                    options: opt,
                    sentry: None,
                };
                assert(server@.services =~= Seq::empty());
                Ok(server)
            },
            None => Err(Error::ConfGeneration),
        }
    }

    /// Registers a service. It is started by [`Server::run_services`].
    pub fn add_service(&mut self, service: Service<S>)
        ensures
            final(self)@ == (ServerView { services: old(self)@.services.push(service@), ..old(self)@ }),
    {
        self.services.push(service);
        assert(self@.services =~= old(self)@.services.push(service@));
    }

    /// Registers a list of services, in its order, behind those that are
    /// registered already.
    pub fn add_services(&mut self, services: Vec<Service<S>>)
        ensures
            final(self)@ == (ServerView {
                services: old(self)@.services + service_views(services@),
                ..old(self)@
            }),
    {
        let ghost added = services@;
        let mut services = services;
        self.services.append(&mut services);
        assert(self@.services =~= old(self)@.services + service_views(added));
    }

    /// The settings of the server.
    pub fn configuration(&self) -> (conf: &ServerConf)
        ensures
            conf@ == self@.configuration,
    {
        &self.configuration
    }

    /// The command-line options, if there are any.
    pub fn options(&self) -> (opt: Option<&Opt>)
        ensures
            match opt {
                Some(opt) => self@.options == Some(opt@),
                None => self@.options is None,
            },
    {
        self.options.as_ref()
    }

    /// Where errors are reported to, if anywhere.
    pub fn sentry(&self) -> (dsn: Option<&String>)
        ensures
            match dsn {
                Some(dsn) => self@.sentry == Some(dsn@),
                None => self@.sentry is None,
            },
    {
        self.sentry.as_ref()
    }

    /// Sets where errors are reported to.
    pub fn set_sentry(&mut self, dsn: Option<String>)
        ensures
            final(self)@ == (ServerView { sentry: text(dsn), ..old(self)@ }),
    {
        self.sentry = dsn;
    }

    /// The registry of listening sockets, once the server has one.
    pub fn listen_fds(&self) -> (fds: Option<&F>)
        ensures
            match fds {
                Some(fds) => self@.listen_fds == Some(*fds),
                None => self@.listen_fds is None,
            },
    {
        self.listen_fds.as_ref()
    }

    /// The number of registered services that have not been started.
    pub fn service_count(&self) -> (count: usize)
        ensures
            count == self@.services.len(),
    {
        self.services.len()
    }

    /// Begins to make the server ready, and says what is to happen next.
    ///
    /// A server that was asked only to check its configuration ends here,
    /// with exit code 0. One that was asked to upgrade is to receive its
    /// predecessor's listening sockets over the control socket. Any other is
    /// to get an empty registry, and nothing is read from the control socket.
    pub fn bootstrap(&self) -> (next: Bootstrap)
        ensures
            next@ == self@.bootstrap(),
    {
        let test = match &self.options {
            Some(o) => o.test,
            None => false,
        };
        if test {
            return Bootstrap::Exit { code: EXIT_OK };
        }
        let upgrade = match &self.options {
            Some(o) => o.upgrade,
            None => false,
        };
        if upgrade {
            Bootstrap::InheritFds { path: self.configuration.upgrade_sock.clone() }
        } else {
            Bootstrap::FreshFds
        }
    }

    /// Takes the registry of listening sockets that was made or received, or
    /// the operating system's error code where none could be had.
    ///
    /// With a registry the server is ready. Without one it cannot serve: the
    /// process is to end with exit code 1, and the server is as it was, with
    /// every service still registered and none started.
    pub fn load_fds(&mut self, loaded: Result<F, i32>) -> (next: Bootstrap)
        ensures
            match loaded {
                Ok(fds) => next@ == BootstrapView::Ready && final(self)@ == (ServerView {
                    listen_fds: Some(fds),
                    ..old(self)@
                }),
                Err(_) => next@ == (BootstrapView::Exit { code: EXIT_BOOTSTRAP_FAILED })
                    && final(self)@ == old(self)@,
            },
    {
        match loaded {
            Ok(fds) => {
                self.listen_fds = Some(fds);
                Bootstrap::Ready
            },
            Err(_) => Bootstrap::Exit { code: EXIT_BOOTSTRAP_FAILED },
        }
    }

    /// The path of the control socket over which the registry of listening
    /// sockets is to be sent to the successor. `None` where the server has no
    /// registry: there is nothing to send.
    pub fn send_fds(&self) -> (path: Option<String>)
        ensures
            text(path) == self@.send_fds(),
    {
        match &self.listen_fds {
            Some(_) => Some(self.configuration.upgrade_sock.clone()),
            None => None,
        }
    }

    /// Plans the start of every registered service and leaves none registered.
    ///
    /// Each service gets a runtime of its own, which carries the service's
    /// name, has the thread count that the service asks for or else the
    /// server's default, and steals work as the configuration says. The
    /// service that was registered last is started first.
    pub fn run_services(&mut self) -> (starts: Vec<ServiceStart<S>>)
        ensures
            start_views(starts@) == starts_of(
                old(self)@.services,
                old(self)@.configuration.threads,
                old(self)@.configuration.work_stealing,
            ),
            final(self)@ == (ServerView { services: Seq::empty(), ..old(self)@ }),
    {
        let mut starts: Vec<ServiceStart<S>> = Vec::new();
        let ghost before = self@;
        let ghost total = self.services@.len();
        while self.services.len() > 0
            invariant
                self@ == (ServerView { services: self@.services, ..before }),
                self.services@.len() + starts@.len() == total,
                total == before.services.len(),
                self@.services == before.services.take(self.services@.len() as int),
                start_views(starts@) == starts_of(
                    before.services,
                    before.configuration.threads,
                    before.configuration.work_stealing,
                ).take(starts@.len() as int),
            decreases self.services@.len(),
        {
            let ghost left = self.services@.len();
            let ghost registered = self.services@;
            let service = self.services.pop().unwrap();
            let threads = match service.threads {
                Some(threads) => threads,
                None => self.configuration.threads,
            };
            let start = run_service(service, threads, self.configuration.work_stealing);
            starts.push(start);
            proof {
                assert(service == registered[left - 1]);
                assert(service_views(registered)[left - 1] == service@);
                assert(before.services.take(left as int)[left - 1] == before.services[left - 1]);
                assert(service@ == before.services[left - 1]);
                assert(threads == effective_threads(service@.threads, before.configuration.threads));
                assert(self@.services =~= before.services.take(left - 1));
                assert(start_views(starts@) =~= starts_of(
                    before.services,
                    before.configuration.threads,
                    before.configuration.work_stealing,
                ).take(starts@.len() as int));
            }
        }
        proof {
            assert(self@.services =~= Seq::empty());
            assert(start_views(starts@) =~= starts_of(
                before.services,
                before.configuration.threads,
                before.configuration.work_stealing,
            ));
        }
        starts
    }
}

} // verus!
