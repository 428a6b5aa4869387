//! The routes of the health endpoints: which are mounted, and which engine
//! state each of them reads.

use crate::http::{is_served_from, serve, Endpoint, HealthResponse};
use crate::probe::StateChecker;
use crate::state::{ActuatorState, ActuatorView};
use vstd::prelude::*;

verus! {

/// A mounted endpoint.
#[derive(Clone, Copy, Debug, PartialEq, Eq)]
pub struct MountedRoute {
    /// The endpoint.
    pub endpoint: Endpoint,
    /// The place, among the states layered on the router, of the state that
    /// the route reads; `None` while no state has been layered on the route.
    pub layer: Option<usize>,
}

impl MountedRoute {
    /// Whether the state that the route reads, if any, is among the first
    /// `count` states.
    pub open spec fn reads_within(self, count: nat) -> bool {
        match self.layer {
            Some(k) => k < count,
            None => true,
        }
    }
}

/// What a request to a router comes to.
#[derive(Debug, PartialEq, Eq)]
pub enum Dispatch {
    /// Nothing is mounted under the path.
    NotFound,
    /// The endpoint is mounted, but no state was layered on it.
    MissingState(Endpoint),
    /// The endpoint's answer.
    Answered(HealthResponse),
}

/// What a router holds.
pub struct RouterView<P> {
    /// The routes, in the order in which they were mounted.
    pub routes: Seq<MountedRoute>,
    /// The states, in the order in which they were layered.
    pub layers: Seq<ActuatorView<P>>,
}

impl<P> RouterView<P> {
    /// The mounted endpoints, in the order in which they were mounted.
    pub open spec fn endpoints(self) -> Seq<Endpoint> {
        self.routes.map_values(|route: MountedRoute| route.endpoint)
    }

    /// No endpoint is mounted twice, and every route that reads a state reads
    /// one that the router holds.
    pub open spec fn wf(self) -> bool {
        &&& self.endpoints().no_duplicates()
        &&& forall|i: int|
            0 <= i < self.routes.len() ==> (#[trigger] self.routes[i]).reads_within(
                self.layers.len(),
            )
    }

    /// The router with nothing mounted.
    pub open spec fn empty() -> RouterView<P> {
        RouterView { routes: Seq::empty(), layers: Seq::empty() }
    }

    /// Whether `endpoint` is mounted.
    pub open spec fn mounts(self, endpoint: Endpoint) -> bool {
        self.endpoints().contains(endpoint)
    }

    /// The route of a mounted endpoint.
    pub open spec fn route_of(self, endpoint: Endpoint) -> MountedRoute {
        self.routes[self.endpoints().index_of(endpoint)]
    }

    /// The router after `endpoint` has been mounted: the new route comes
    /// last and reads no state yet.
    pub open spec fn mounted(self, endpoint: Endpoint) -> RouterView<P> {
        RouterView {
            routes: self.routes.push(MountedRoute { endpoint, layer: None }),
            layers: self.layers,
        }
    }

    /// The router after `state` has been layered on it: every route that read
    /// no state reads this one from now on; a route that read a state already
    /// goes on reading the same.
    pub open spec fn layered(self, state: ActuatorView<P>) -> RouterView<P> {
        RouterView {
            routes: self.routes.map_values(
                |route: MountedRoute|
                    if route.layer is None {
                        MountedRoute {
                            endpoint: route.endpoint,
                            layer: Some(self.layers.len() as usize),
                        }
                    } else {
                        route
                    },
            ),
            layers: self.layers.push(state),
        }
    }

    /// Whether `outcome` can be what a request for `path` comes to.
    pub open spec fn dispatches(self, path: Seq<char>, outcome: Dispatch) -> bool
        where P: StateChecker
    {
        match Endpoint::spec_from_path(path) {
            Some(endpoint) if self.mounts(endpoint) => match self.route_of(endpoint).layer {
                Some(k) => outcome matches Dispatch::Answered(response) && is_served_from(
                    endpoint,
                    self.layers[k as int],
                    response@,
                ),
                None => outcome == Dispatch::MissingState(endpoint),
            },
            _ => outcome == Dispatch::NotFound,
        }
    }
}

/// The routes of the health endpoints.
#[derive(Debug)]
pub struct ActuatorRouter<P: StateChecker> {
    routes: Vec<MountedRoute>,
    layers: Vec<ActuatorState<P>>,
}

impl<P: StateChecker> View for ActuatorRouter<P> {
    type V = RouterView<P>;

    closed spec fn view(&self) -> RouterView<P> {
        RouterView {
            routes: self.routes@,
            layers: self.layers@.map_values(|state: ActuatorState<P>| state@),
        }
    }
}

impl<P: StateChecker> ActuatorRouter<P> {
    /// What holds of every router.
    #[verifier::type_invariant]
    pub open spec fn well_formed(self) -> bool {
        self@.wf()
    }

    /// A router with nothing mounted.
    pub fn new() -> (router: ActuatorRouter<P>)
        ensures
            router@ == RouterView::<P>::empty(),
    {
        let routes: Vec<MountedRoute> = Vec::new();
        let layers: Vec<ActuatorState<P>> = Vec::new();
        assert(routes@.map_values(|route: MountedRoute| route.endpoint) =~= Seq::empty());
        assert(layers@.map_values(|state: ActuatorState<P>| state@) =~= Seq::empty());
        ActuatorRouter { routes, layers }
    }

    /// The place of the route of `endpoint`, if it is mounted.
    fn position(&self, endpoint: Endpoint) -> (place: Option<usize>)
        ensures
            match place {
                Some(i) => i < self@.routes.len() && self@.routes[i as int].endpoint == endpoint
                    && self@.mounts(endpoint) && self@.route_of(endpoint)
                    == self@.routes[i as int],
                None => !self@.mounts(endpoint),
            },
    {
        proof {
            use_type_invariant(self);
        }
        let n: usize = self.routes.len();
        let mut i: usize = 0;
        while i < n
            invariant
                n == self.routes@.len(),
                i <= n,
                self@.wf(),
                forall|j: int| 0 <= j < i ==> self@.endpoints()[j] != endpoint,
            decreases n - i,
        {
            if self.routes[i].endpoint == endpoint {
                proof {
                    let endpoints = self@.endpoints();
                    assert(endpoints[i as int] == endpoint);
                    assert(endpoints.index_of(endpoint) == i);
                }
                return Some(i);
            }
            i = i + 1;
        }
        None
    }

    /// Whether `endpoint` is mounted.
    pub fn has_route(&self, endpoint: Endpoint) -> (found: bool)
        ensures
            found == self@.mounts(endpoint),
    {
        self.position(endpoint).is_some()
    }

    /// The routes, in the order in which they were mounted.
    pub fn routes(&self) -> (routes: Vec<MountedRoute>)
        ensures
            routes@ == self@.routes,
    {
        self.routes.clone()
    }

    /// Mounts `endpoint`. The new route reads no state until one is layered
    /// on the router.
    pub fn mount(self, endpoint: Endpoint) -> (router: ActuatorRouter<P>)
        requires
            !self@.mounts(endpoint),
        ensures
            router@ == self@.mounted(endpoint),
    {
        proof {
            use_type_invariant(&self);
        }
        let ghost before = self@;
        let mut routes = self.routes;
        let layers = self.layers;
        routes.push(MountedRoute { endpoint, layer: None });
        proof {
            lemma_mounted(before, endpoint);
        }
        ActuatorRouter { routes, layers }
    }

    /// Layers `state` on the router: every route mounted so far that reads
    /// no state reads this one from now on.
    pub fn layer(self, state: ActuatorState<P>) -> (router: ActuatorRouter<P>)
        ensures
            router@ == self@.layered(state@),
    {
        proof {
            use_type_invariant(&self);
        }
        let ghost before = self@;
        let ghost after = before.layered(state@);
        let mut routes = self.routes;
        let mut layers = self.layers;
        let k: usize = layers.len();
        layers.push(state);
        let count: usize = layers.len();
        assert(before.layers.len() < usize::MAX) by {
            assert(count == before.layers.len() + 1);
        }
        let n: usize = routes.len();
        let mut i: usize = 0;
        while i < n
            invariant
                n == routes@.len(),
                n == before.routes.len(),
                i <= n,
                k == before.layers.len(),
                after.routes.len() == n,
                forall|j: int|
                    0 <= j < n ==> after.routes[j] == if before.routes[j].layer is None {
                        MountedRoute { endpoint: before.routes[j].endpoint, layer: Some(k) }
                    } else {
                        before.routes[j]
                    },
                forall|j: int| 0 <= j < i ==> routes@[j] == after.routes[j],
                forall|j: int| i <= j < n ==> routes@[j] == before.routes[j],
            decreases n - i,
        {
            let route = routes[i];
            if route.layer.is_none() {
                routes[i] = MountedRoute { endpoint: route.endpoint, layer: Some(k) };
            }
            i = i + 1;
        }
        proof {
            assert(routes@ =~= after.routes);
            assert(layers@.map_values(|s: ActuatorState<P>| s@) =~= after.layers);
            lemma_layered(before, state@);
        }
        ActuatorRouter { routes, layers }
    }

    /// Answers a request for `path`.
    pub fn handle(&self, path: &str) -> (outcome: Dispatch)
        ensures
            self@.dispatches(path@, outcome),
    {
        proof {
            use_type_invariant(self);
        }
        match Endpoint::from_path(path) {
            None => Dispatch::NotFound,
            Some(endpoint) => match self.position(endpoint) {
                None => Dispatch::NotFound,
                Some(i) => match self.routes[i].layer {
                    None => Dispatch::MissingState(endpoint),
                    Some(k) => Dispatch::Answered(serve(endpoint, &self.layers[k])),
                },
            },
        }
    }

    /// Takes the router apart: its routes and the states layered on it.
    pub fn into_parts(self) -> (parts: (Vec<MountedRoute>, Vec<ActuatorState<P>>))
        ensures
            parts.0@ == self@.routes,
            parts.1@.map_values(|state: ActuatorState<P>| state@) == self@.layers,
    {
        (self.routes, self.layers)
    }
}

/// Mounting an endpoint that is not mounted keeps a router well formed. The
/// endpoint is mounted afterwards, with a route that reads no state; what was
/// mounted before is mounted still, each with the route it had.
pub proof fn lemma_mounted<P>(router: RouterView<P>, endpoint: Endpoint)
    requires
        router.wf(),
        !router.mounts(endpoint),
    ensures
        router.mounted(endpoint).wf(),
        router.mounted(endpoint).mounts(endpoint),
        router.mounted(endpoint).route_of(endpoint) == (MountedRoute { endpoint, layer: None }),
        forall|other: Endpoint|
            other != endpoint ==> router.mounted(endpoint).mounts(other) == router.mounts(other),
        forall|other: Endpoint| #[trigger]
            router.mounts(other) ==> router.mounted(endpoint).route_of(other) == router.route_of(
                other,
            ),
{
    let after = router.mounted(endpoint);
    let n = router.routes.len() as int;
    assert(after.endpoints() =~= router.endpoints().push(endpoint));
    assert(after.endpoints()[n] == endpoint);
    assert forall|i: int, j: int|
        0 <= i < after.endpoints().len() && 0 <= j < after.endpoints().len() && i
            != j implies after.endpoints()[i] != after.endpoints()[j] by {
        if i < n && j < n {
        } else if i < n {
            assert(router.endpoints()[i] == after.endpoints()[i]);
        } else {
            assert(router.endpoints()[j] == after.endpoints()[j]);
        }
    }
    assert forall|i: int| 0 <= i < after.routes.len() implies (#[trigger] after.routes[i])
        .reads_within(after.layers.len()) by {
        if i < n {
            assert(after.routes[i] == router.routes[i]);
        }
    }
    assert(after.endpoints().index_of(endpoint) == n);
    assert forall|other: Endpoint| other != endpoint implies after.mounts(other) == router.mounts(
        other,
    ) by {
        if router.mounts(other) {
            let i = router.endpoints().index_of(other);
            assert(after.endpoints()[i] == other);
        }
        if after.mounts(other) {
            let i = after.endpoints().index_of(other);
            assert(router.endpoints()[i] == other);
        }
    }
    assert forall|other: Endpoint| #[trigger] router.mounts(other) implies after.route_of(other)
        == router.route_of(other) by {
        let i = router.endpoints().index_of(other);
        assert(after.endpoints()[i] == other);
        assert(after.endpoints().index_of(other) == i);
    }
}

/// Layering a state keeps a router well formed and mounts nothing. Every
/// route reads a state afterwards: the one it read before, or else the new
/// one.
pub proof fn lemma_layered<P>(router: RouterView<P>, state: ActuatorView<P>)
    requires
        router.wf(),
        router.layers.len() < usize::MAX,
    ensures
        router.layered(state).wf(),
        router.layered(state).endpoints() == router.endpoints(),
        forall|endpoint: Endpoint| #[trigger]
            router.mounts(endpoint) ==> router.layered(state).route_of(endpoint).layer == (
            match router.route_of(endpoint).layer {
                Some(k) => Some(k),
                None => Some(router.layers.len() as usize),
            }),
        forall|k: int|
            0 <= k < router.layers.len() ==> router.layered(state).layers[k] == router.layers[k],
        router.layered(state).layers[router.layers.len() as int] == state,
{
    let after = router.layered(state);
    assert(after.endpoints() =~= router.endpoints());
    assert forall|i: int| 0 <= i < after.routes.len() implies (#[trigger] after.routes[i])
        .reads_within(after.layers.len()) by {
        assert(router.routes[i].reads_within(router.layers.len()));
    }
}

/// The builder of a router for the health endpoints.
#[derive(Debug)]
pub struct ActuatorRouterBuilder<P: StateChecker> {
    router: ActuatorRouter<P>,
}

impl<P: StateChecker> View for ActuatorRouterBuilder<P> {
    type V = RouterView<P>;

    closed spec fn view(&self) -> RouterView<P> {
        self.router@
    }
}

impl<P: StateChecker> ActuatorRouterBuilder<P> {
    /// Starts from `router`.
    pub fn new(router: ActuatorRouter<P>) -> (builder: ActuatorRouterBuilder<P>)
        ensures
            builder@ == router@,
    {
        ActuatorRouterBuilder { router }
    }

    /// Whether `endpoint` is mounted.
    pub fn has_route(&self, endpoint: Endpoint) -> (found: bool)
        ensures
            found == self@.mounts(endpoint),
    {
        self.router.has_route(endpoint)
    }

    /// Layers the state on the routes mounted so far, if there is one;
    /// without one nothing changes.
    pub fn with_layer(self, extention_opt: Option<ActuatorState<P>>) -> (builder:
        ActuatorRouterBuilder<P>)
        ensures
            builder@ == match extention_opt {
                Some(state) => self@.layered(state@),
                None => self@,
            },
    {
        match extention_opt {
            Some(extention) => ActuatorRouterBuilder { router: self.router.layer(extention) },
            None => self,
        }
    }

    /// Mounts the readiness endpoint.
    pub fn with_readiness_route(self) -> (builder: ActuatorRouterBuilder<P>)
        requires
            !self@.mounts(Endpoint::Readiness),
        ensures
            builder@ == self@.mounted(Endpoint::Readiness),
    {
        ActuatorRouterBuilder { router: self.router.mount(Endpoint::Readiness) }
    }

    /// Mounts the liveness endpoint.
    pub fn with_liveness_route(self) -> (builder: ActuatorRouterBuilder<P>)
        requires
            !self@.mounts(Endpoint::Liveness),
        ensures
            builder@ == self@.mounted(Endpoint::Liveness),
    {
        ActuatorRouterBuilder { router: self.router.mount(Endpoint::Liveness) }
    }

    /// Mounts the info endpoint.
    pub fn with_info_route(self) -> (builder: ActuatorRouterBuilder<P>)
        requires
            !self@.mounts(Endpoint::Info),
        ensures
            builder@ == self@.mounted(Endpoint::Info),
    {
        ActuatorRouterBuilder { router: self.router.mount(Endpoint::Info) }
    }

    /// Mounts the health endpoint.
    pub fn with_health_route(self) -> (builder: ActuatorRouterBuilder<P>)
        requires
            !self@.mounts(Endpoint::Health),
        ensures
            builder@ == self@.mounted(Endpoint::Health),
    {
        ActuatorRouterBuilder { router: self.router.mount(Endpoint::Health) }
    }

    /// The router that was built.
    pub fn build(self) -> (router: ActuatorRouter<P>)
        ensures
            router@ == self@,
    {
        self.router
    }
}

} // verus!
