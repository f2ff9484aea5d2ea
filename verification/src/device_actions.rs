use vstd::prelude::*;

use crate::device::{DeviceData, DeviceKind, DEFAULT_MAIN_ROUTE};
use crate::hazards::{seq_from_slice, seq_insert, Hazard, Hazards};
use crate::route::{
    describes, first_routes, join_result, opt_view, serialize_routes, Route, RouteHazards, RouteMode,
    RouteView,
};

verus! {

/// The symbol that marks an input in the routes of a server.
pub open spec fn input_symbol() -> Seq<char> {
    seq![':']
}

/// The state of a route once its inputs are joined for a server: `GET`
/// routes whose inputs were not joined yet get their inputs joined, each
/// marked by [`input_symbol`].
pub open spec fn server_route(v: RouteView) -> RouteView {
    join_result(v, Some(input_symbol()))
}

/// A route of a server with its hazards.
#[derive(Debug)]
pub struct DeviceAction {
    /// Route.
    pub route: Route,
    /// Hazards.
    pub hazards: Hazards,
}

impl DeviceAction {
    /// Creates a [`DeviceAction`], joining the inputs of the route for the
    /// server.
    pub fn init(route: Route, hazards: Hazards) -> (r: Self)
        ensures
            r.route@ == server_route(route@),
            r.hazards == hazards,
    {
        let mut route = route;
        let symbol = ":";
        proof {
            reveal_strlit(":");
        }
        assert(opt_view(Some(symbol)) == Some(input_symbol()));
        route.join_inputs(RouteMode::Linear, Some(symbol));
        DeviceAction { route, hazards }
    }

    /// Returns whether the action does not have `hazard`.
    pub fn miss_hazard(&self, hazard: Hazard) -> (r: bool)
        ensures
            r == !self.hazards@.contains(hazard),
    {
        !self.hazards.contains(hazard)
    }

    /// Returns whether the action misses some of the given hazards.
    pub fn miss_hazards(&self, hazards: &[Hazard]) -> (r: bool)
        ensures
            r == exists|i: int| 0 <= i < hazards@.len() && !self.hazards@.contains(#[trigger] hazards@[i]),
    {
        let mut i: usize = 0;
        while i < hazards.len()
            invariant
                0 <= i <= hazards@.len(),
                forall|j: int| 0 <= j < i ==> self.hazards@.contains(#[trigger] hazards@[j]),
            decreases hazards@.len() - i,
        {
            if !self.hazards.contains(hazards[i]) {
                return true;
            }
            i = i + 1;
        }
        false
    }
}

/// An action whose response carries no data.
#[derive(Debug)]
pub struct EmptyAction(pub DeviceAction);

/// An action whose response carries serialized data.
#[derive(Debug)]
pub struct SerialAction(pub DeviceAction);

impl EmptyAction {
    /// Creates a new [`EmptyAction`].
    pub fn no_hazards(route: Route) -> (r: Self)
        ensures
            r.0.route@ == server_route(route@),
            r.0.hazards@ == Seq::<Hazard>::empty(),
    {
        EmptyAction(DeviceAction::init(route, Hazards::new()))
    }

    /// Creates a new [`EmptyAction`] with a single [`Hazard`].
    pub fn with_hazard(route: Route, hazard: Hazard) -> (r: Self)
        ensures
            r.0.route@ == server_route(route@),
            r.0.hazards@ == seq![hazard],
    {
        let mut hazards = Hazards::new();
        hazards.add(hazard);
        assert(seq_insert(Seq::empty(), hazard) == seq![hazard]);
        EmptyAction(DeviceAction::init(route, hazards))
    }

    /// Creates a new [`EmptyAction`] with [`Hazard`]s.
    pub fn with_hazards(route: Route, input_hazards: &[Hazard]) -> (r: Self)
        ensures
            r.0.route@ == server_route(route@),
            r.0.hazards@ == seq_from_slice(input_hazards@),
    {
        EmptyAction(DeviceAction::init(route, Hazards::init_with_elements(input_hazards)))
    }

    /// Checks whether an [`EmptyAction`] misses a specific [`Hazard`].
    pub fn miss_hazard(&self, hazard: Hazard) -> (r: bool)
        ensures
            r == !self.0.hazards@.contains(hazard),
    {
        self.0.miss_hazard(hazard)
    }

    /// Checks whether an [`EmptyAction`] misses some of the given
    /// [`Hazard`]s.
    pub fn miss_hazards(&self, hazards: &[Hazard]) -> (r: bool)
        ensures
            r == exists|i: int| 0 <= i < hazards@.len() && !self.0.hazards@.contains(#[trigger] hazards@[i]),
    {
        self.0.miss_hazards(hazards)
    }

    /// Returns the device action.
    pub fn device_action(self) -> (r: DeviceAction)
        ensures
            r == self.0,
    {
        self.0
    }
}

impl SerialAction {
    /// Creates a new [`SerialAction`].
    pub fn no_hazards(route: Route) -> (r: Self)
        ensures
            r.0.route@ == server_route(route@),
            r.0.hazards@ == Seq::<Hazard>::empty(),
    {
        SerialAction(DeviceAction::init(route, Hazards::new()))
    }

    /// Creates a new [`SerialAction`] with a single [`Hazard`].
    pub fn with_hazard(route: Route, hazard: Hazard) -> (r: Self)
        ensures
            r.0.route@ == server_route(route@),
            r.0.hazards@ == seq![hazard],
    {
        let mut hazards = Hazards::new();
        hazards.add(hazard);
        assert(seq_insert(Seq::empty(), hazard) == seq![hazard]);
        SerialAction(DeviceAction::init(route, hazards))
    }

    /// Creates a new [`SerialAction`] with [`Hazard`]s.
    pub fn with_hazards(route: Route, input_hazards: &[Hazard]) -> (r: Self)
        ensures
            r.0.route@ == server_route(route@),
            r.0.hazards@ == seq_from_slice(input_hazards@),
    {
        SerialAction(DeviceAction::init(route, Hazards::init_with_elements(input_hazards)))
    }

    /// Checks whether a [`SerialAction`] misses a specific [`Hazard`].
    pub fn miss_hazard(&self, hazard: Hazard) -> (r: bool)
        ensures
            r == !self.0.hazards@.contains(hazard),
    {
        self.0.miss_hazard(hazard)
    }

    /// Checks whether a [`SerialAction`] misses some of the given
    /// [`Hazard`]s.
    pub fn miss_hazards(&self, hazards: &[Hazard]) -> (r: bool)
        ensures
            r == exists|i: int| 0 <= i < hazards@.len() && !self.0.hazards@.contains(#[trigger] hazards@[i]),
    {
        self.0.miss_hazards(hazards)
    }

    /// Returns the device action.
    pub fn device_action(self) -> (r: DeviceAction)
        ensures
            r == self.0,
    {
        self.0
    }
}

/// Whether two routes with their hazards are the same route: the same
/// route and the same `REST` kind.
pub open spec fn same_route(a: RouteHazards, b: RouteHazards) -> bool {
    a.route@.route == b.route@.route && a.route@.rest_kind == b.route@.rest_kind
}

/// The routes of `s` after adding `a`, unless `s` has the same route.
pub open spec fn routes_insert(s: Seq<RouteHazards>, a: RouteHazards) -> Seq<RouteHazards> {
    if exists|j: int| 0 <= j < s.len() && same_route(#[trigger] s[j], a) { s } else { s.push(a) }
}

/// A general smart home device served over HTTP, with a state shared by
/// its actions.
#[derive(Debug)]
pub struct Device<S> {
    kind: DeviceKind,
    main_route: &'static str,
    routes_hazards: Vec<RouteHazards>,
    state: Option<S>,
}

/// The abstract state of a [`Device`].
pub struct DeviceView<S> {
    /// Kind.
    pub kind: DeviceKind,
    /// Main device route.
    pub main_route: Seq<char>,
    /// All device routes and their hazards, in order.
    pub routes_hazards: Seq<RouteHazards>,
    /// Device state.
    pub state: Option<S>,
}

impl<S> View for Device<S> {
    type V = DeviceView<S>;

    closed spec fn view(&self) -> DeviceView<S> {
        DeviceView {
            kind: self.kind,
            main_route: self.main_route@,
            routes_hazards: self.routes_hazards@,
            state: self.state,
        }
    }
}

impl<S> Device<S> {
    /// Creates a new instance defining the [`DeviceKind`].
    pub fn new(kind: DeviceKind) -> (r: Self)
        ensures
            r@.kind == kind,
            r@.main_route == DEFAULT_MAIN_ROUTE@,
            r@.routes_hazards == Seq::<RouteHazards>::empty(),
            r@.state is None,
    {
        Device { kind, main_route: DEFAULT_MAIN_ROUTE, routes_hazards: Vec::new(), state: None }
    }

    /// Creates an unknown [`Device`].
    pub fn unknown() -> (r: Self)
        ensures
            r@.kind == DeviceKind::Unknown,
            r@.main_route == DEFAULT_MAIN_ROUTE@,
            r@.routes_hazards == Seq::<RouteHazards>::empty(),
            r@.state is None,
    {
        Self::new(DeviceKind::Unknown)
    }

    /// Sets a new main route.
    pub fn main_route(self, main_route: &'static str) -> (r: Self)
        ensures
            r@ == (DeviceView { main_route: main_route@, ..self@ }),
    {
        Device { main_route, ..self }
    }

    /// Adds the route and the hazards of an action to the device.
    ///
    /// A route that is the same as the route of an action already added
    /// (the same route and the same `REST` kind) is not added again.
    pub fn add_action(self, device_action: DeviceAction) -> (r: Self)
        ensures
            r@.kind == self@.kind,
            r@.main_route == self@.main_route,
            r@.state == self@.state,
            r@.routes_hazards == routes_insert(
                self@.routes_hazards,
                RouteHazards { route: device_action.route, hazards: device_action.hazards },
            ),
    {
        let mut r = self;
        let DeviceAction { route, hazards } = device_action;
        let route_hazards = RouteHazards::new(route, hazards);
        assert(route_hazards == RouteHazards { route: device_action.route, hazards: device_action.hazards });
        let mut i: usize = 0;
        while i < r.routes_hazards.len()
            invariant
                0 <= i <= r.routes_hazards@.len(),
                r@ == self@,
                route_hazards == (RouteHazards { route: device_action.route, hazards: device_action.hazards }),
                forall|j: int| 0 <= j < i ==> !same_route(#[trigger] r.routes_hazards@[j], route_hazards),
            decreases r.routes_hazards@.len() - i,
        {
            if r.routes_hazards[i].same_route(&route_hazards) {
                proof {
                    assert(same_route(r.routes_hazards@[i as int], route_hazards));
                }
                return r;
            }
            i = i + 1;
        }
        r.routes_hazards.push(route_hazards);
        r
    }

    /// Sets a device state.
    pub fn state(self, state: S) -> (r: Self)
        ensures
            r@ == (DeviceView { state: Some(state), ..self@ }),
    {
        Device { state: Some(state), ..self }
    }

    /// Returns the main route of the device.
    pub fn get_main_route(&self) -> (r: &'static str)
        ensures
            r@ == self@.main_route,
    {
        self.main_route
    }

    /// Serializes the device data: its kind, its main route and the
    /// configuration of each of its routes, in order, leaving out a route
    /// whose configuration is the same as the one of an earlier route.
    pub fn serialize_data(&self) -> (r: DeviceData<'_>)
        ensures
            r.kind == self@.kind,
            r.main_route@ == self@.main_route,
            r.route_configs@.len() == first_routes(self@.routes_hazards).len(),
            forall|i: int| 0 <= i < r.route_configs@.len() ==>
                describes(#[trigger] r.route_configs@[i], first_routes(self@.routes_hazards)[i]),
    {
        let route_configs = serialize_routes(self.routes_hazards.as_slice());
        DeviceData { kind: self.kind, main_route: self.main_route, route_configs }
    }
}

}
