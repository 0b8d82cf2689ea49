//! Services, and the thread pools that they run on.
//!
//! A service is known to the server by a name and by the thread count that it
//! asks for. What runs it is the embedding program's own value, carried here
//! untouched as `handle`.

use vstd::prelude::*;

verus! {

/// A service as it is registered with a server.
#[derive(Debug, PartialEq, Eq)]
pub struct Service<S> {
    /// The name of the service, which its threads carry.
    pub name: String,
    /// The thread count that the service asks for, if it asks for one.
    pub threads: Option<usize>,
    /// What the embedding program runs as this service.
    pub handle: S,
}

/// How the threads of a runtime share their tasks.
#[derive(Clone, Copy, Debug, PartialEq, Eq, Structural)]
pub enum Flavor {
    /// An idle thread takes over tasks that wait for a busy one.
    Steal,
    /// A task stays on the thread that it was given to.
    NoSteal,
}

/// The thread pool that is to be created for one service, or for the server
/// itself.
#[derive(Debug, PartialEq, Eq)]
pub struct RuntimePlan {
    /// The name that the pool's threads carry.
    pub name: String,
    /// The number of threads in the pool.
    pub threads: usize,
    /// How the threads share their tasks.
    pub flavor: Flavor,
}

/// One service that is to be started, with the thread pool to start it on.
#[derive(Debug, PartialEq, Eq)]
pub struct ServiceStart<S> {
    /// What the embedding program runs as this service.
    pub handle: S,
    /// The thread pool that the service gets for itself.
    pub runtime: RuntimePlan,
}

/// What the contracts say of a [`Service`].
pub struct ServiceView<S> {
    pub name: Seq<char>,
    pub threads: Option<usize>,
    pub handle: S,
}

/// What the contracts say of a [`RuntimePlan`].
pub struct RuntimePlanView {
    pub name: Seq<char>,
    pub threads: usize,
    pub flavor: Flavor,
}

/// What the contracts say of a [`ServiceStart`].
pub struct ServiceStartView<S> {
    pub handle: S,
    pub runtime: RuntimePlanView,
}

impl<S> View for Service<S> {
    type V = ServiceView<S>;

    open spec fn view(&self) -> ServiceView<S> {
        ServiceView { name: self.name@, threads: self.threads, handle: self.handle }
    }
}

impl View for RuntimePlan {
    type V = RuntimePlanView;

    open spec fn view(&self) -> RuntimePlanView {
        RuntimePlanView { name: self.name@, threads: self.threads, flavor: self.flavor }
    }
}

impl<S> View for ServiceStart<S> {
    type V = ServiceStartView<S>;

    open spec fn view(&self) -> ServiceStartView<S> {
        ServiceStartView { handle: self.handle, runtime: self.runtime@ }
    }
}

/// The registered services as the contracts see them, in the order of
/// registration.
pub open spec fn service_views<S>(services: Seq<Service<S>>) -> Seq<ServiceView<S>> {
    Seq::new(services.len(), |i: int| services[i]@)
}

/// The services to start as the contracts see them, in the order of starting.
pub open spec fn start_views<S>(starts: Seq<ServiceStart<S>>) -> Seq<ServiceStartView<S>> {
    Seq::new(starts.len(), |i: int| starts[i]@)
}

/// The flavor of runtime that the work-stealing setting calls for.
pub open spec fn flavor_of(work_stealing: bool) -> Flavor {
    if work_stealing {
        Flavor::Steal
    } else {
        Flavor::NoSteal
    }
}

/// The thread count that a service runs with: its own where it names one, the
/// server's default otherwise.
pub open spec fn effective_threads(own: Option<usize>, default: usize) -> usize {
    match own {
        Some(threads) => threads,
        None => default,
    }
}

/// How one registered service is started under the given default thread
/// count and work-stealing setting.
pub open spec fn start_of<S>(
    service: ServiceView<S>,
    default_threads: usize,
    work_stealing: bool,
) -> ServiceStartView<S> {
    ServiceStartView {
        handle: service.handle,
        runtime: RuntimePlanView {
            name: service.name,
            threads: effective_threads(service.threads, default_threads),
            flavor: flavor_of(work_stealing),
        },
    }
}

/// How the registered services are started: the one registered last comes
/// first, and each gets a runtime of its own.
pub open spec fn starts_of<S>(
    services: Seq<ServiceView<S>>,
    default_threads: usize,
    work_stealing: bool,
) -> Seq<ServiceStartView<S>> {
    Seq::new(
        services.len(),
        |i: int| start_of(services[services.len() - 1 - i], default_threads, work_stealing),
    )
}

/// Plans a thread pool of the given name and size, work-stealing or not.
pub fn create_runtime(name: String, threads: usize, work_steal: bool) -> (plan: RuntimePlan)
    ensures
        plan@ == (RuntimePlanView { name: name@, threads, flavor: flavor_of(work_steal) }),
{
    if work_steal {
        RuntimePlan { name, threads, flavor: Flavor::Steal }
    } else {
        RuntimePlan { name, threads, flavor: Flavor::NoSteal }
    }
}

/// Plans the start of one service on a thread pool of its own, which carries
/// the service's name.
pub fn run_service<S>(service: Service<S>, threads: usize, work_stealing: bool) -> (start:
    ServiceStart<S>)
    ensures
        start@ == (ServiceStartView {
            handle: service.handle,
            runtime: RuntimePlanView {
                name: service.name@,
                threads,
                flavor: flavor_of(work_stealing),
            },
        }),
{
    let Service { name, threads: _, handle } = service;
    let runtime = create_runtime(name, threads, work_stealing);
    ServiceStart { handle, runtime }
}

} // verus!
