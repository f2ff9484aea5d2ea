use vstd::prelude::*;

use crate::hazards::Hazards;
use crate::input::{Input, Inputs};
use crate::response::ResponseKind;
use crate::route::{opt_view, RestKind};

verus! {

/// Route data.
#[derive(Debug)]
pub struct RouteData {
    /// Name.
    pub name: String,
    /// Description.
    pub description: Option<String>,
    /// Hazards data.
    pub hazards: Hazards,
    /// Inputs associated with a route.
    pub inputs: Inputs,
}

/// The view of an optional string.
pub open spec fn opt_string_view(s: Option<String>) -> Option<Seq<char>> {
    match s {
        Some(t) => Some(t@),
        None => None,
    }
}

impl RouteData {
    /// Returns whether two route data have the same name.
    pub fn same_name(&self, other: &RouteData) -> (r: bool)
        ensures
            r == (self.name@ == other.name@),
    {
        self.name == other.name
    }

    fn new(route: Route) -> (r: Self)
        ensures
            r.name@ == route@.route,
            opt_string_view(r.description) == route@.description,
            r.hazards@ == route@.hazards,
            r.inputs@ == route@.inputs,
    {
        RouteData {
            name: String::from_str(route.route),
            description: match route.description {
                Some(d) => Some(String::from_str(d)),
                None => None,
            },
            hazards: route.hazards,
            inputs: route.inputs,
        }
    }
}

/// A server route configuration.
#[derive(Debug)]
pub struct RouteConfig {
    /// Route.
    pub data: RouteData,
    /// **_REST_** kind.
    pub rest_kind: RestKind,
    /// Response kind.
    pub response_kind: ResponseKind,
}

impl RouteConfig {
    /// Returns whether two configurations describe the same route: the same
    /// name and the same `REST` kind.
    pub fn same_route(&self, other: &RouteConfig) -> (r: bool)
        ensures
            r == (self.data.name@ == other.data.name@ && self.rest_kind == other.rest_kind),
    {
        self.data.same_name(&other.data) && self.rest_kind == other.rest_kind
    }

    fn new(route: Route) -> (r: Self)
        ensures
            r.rest_kind == route@.rest_kind,
            r.response_kind == ResponseKind::Success,
            r.data.name@ == route@.route,
            opt_string_view(r.data.description) == route@.description,
            r.data.hazards@ == route@.hazards,
            r.data.inputs@ == route@.inputs,
    {
        let rest_kind = route.rest_kind;
        RouteConfig { rest_kind, response_kind: ResponseKind::default(), data: RouteData::new(route) }
    }
}

/// The abstract state of a [`Route`].
pub struct RouteView {
    /// Route.
    pub route: Seq<char>,
    /// REST kind.
    pub rest_kind: RestKind,
    /// Description.
    pub description: Option<Seq<char>>,
    /// Hazards.
    pub hazards: Seq<crate::hazards::Hazard>,
    /// Inputs.
    pub inputs: Seq<Input>,
}

/// A server route.
///
/// It represents a specific `REST` API which, when invoked, runs a task on
/// a remote device.
#[derive(Debug)]
pub struct Route {
    // Route.
    route: &'static str,
    // REST kind.
    rest_kind: RestKind,
    // Description.
    description: Option<&'static str>,
    // Hazards.
    hazards: Hazards,
    // Inputs.
    inputs: Inputs,
}

impl View for Route {
    type V = RouteView;

    closed spec fn view(&self) -> RouteView {
        RouteView {
            route: self.route@,
            rest_kind: self.rest_kind,
            description: opt_view(self.description),
            hazards: self.hazards@,
            inputs: self.inputs@,
        }
    }
}

impl Route {
    /// The state of a route just created.
    pub open spec fn initial(rest_kind: RestKind, route: Seq<char>) -> RouteView {
        RouteView {
            route,
            rest_kind,
            description: None,
            hazards: Seq::empty(),
            inputs: Seq::empty(),
        }
    }

    /// Creates a new [`Route`] through a REST `GET` API.
    pub fn get(route: &'static str) -> (r: Self)
        ensures
            r@ == Route::initial(RestKind::Get, route@),
    {
        Self::init(RestKind::Get, route)
    }

    /// Creates a new [`Route`] through a REST `PUT` API.
    pub fn put(route: &'static str) -> (r: Self)
        ensures
            r@ == Route::initial(RestKind::Put, route@),
    {
        Self::init(RestKind::Put, route)
    }

    /// Creates a new [`Route`] through a REST `POST` API.
    pub fn post(route: &'static str) -> (r: Self)
        ensures
            r@ == Route::initial(RestKind::Post, route@),
    {
        Self::init(RestKind::Post, route)
    }

    /// Creates a new [`Route`] through a REST `DELETE` API.
    pub fn delete(route: &'static str) -> (r: Self)
        ensures
            r@ == Route::initial(RestKind::Delete, route@),
    {
        Self::init(RestKind::Delete, route)
    }

    fn init(rest_kind: RestKind, route: &'static str) -> (r: Self)
        ensures
            r@ == Route::initial(rest_kind, route@),
    {
        Route { route, rest_kind, description: None, hazards: Hazards::new(), inputs: Inputs::new() }
    }

    /// Sets the route description.
    pub fn description(self, description: &'static str) -> (r: Self)
        ensures
            r@ == (RouteView { description: Some(description@), ..self@ }),
    {
        let mut r = self;
        r.description = Some(description);
        r
    }

    /// Changes the route.
    pub fn change_route(self, route: &'static str) -> (r: Self)
        ensures
            r@ == (RouteView { route: route@, ..self@ }),
    {
        let mut r = self;
        r.route = route;
        r
    }

    /// Replaces the [`Hazards`] of a [`Route`].
    pub fn with_hazards(self, hazards: Hazards) -> (r: Self)
        ensures
            r@ == (RouteView { hazards: hazards@, ..self@ }),
    {
        let mut r = self;
        r.hazards = hazards;
        r
    }

    /// Replaces the [`Inputs`] of a [`Route`].
    pub fn with_inputs(self, inputs: Inputs) -> (r: Self)
        ensures
            r@ == (RouteView { inputs: inputs@, ..self@ }),
    {
        let mut r = self;
        r.inputs = inputs;
        r
    }

    /// Returns route.
    pub fn route(&self) -> (r: &str)
        ensures
            r@ == self@.route,
    {
        self.route
    }

    /// Returns [`RestKind`].
    pub fn kind(&self) -> (r: RestKind)
        ensures
            r == self@.rest_kind,
    {
        self.rest_kind
    }

    /// Returns [`Hazards`].
    pub fn hazards(&self) -> (r: &Hazards)
        ensures
            r@ == self@.hazards,
    {
        &self.hazards
    }

    /// Returns [`Inputs`].
    pub fn inputs(&self) -> (r: &Inputs)
        ensures
            r@ == self@.inputs,
    {
        &self.inputs
    }

    /// Returns whether two routes are the same: the same route and the same
    /// `REST` kind.
    pub fn same_route(&self, other: &Route) -> (r: bool)
        ensures
            r == (self@.route == other@.route && self@.rest_kind == other@.rest_kind),
    {
        crate::text::str_eq(self.route, other.route) && self.rest_kind == other.rest_kind
    }

    /// Serializes [`Route`] data.
    ///
    /// It consumes the data.
    pub fn serialize_data(self) -> (r: RouteConfig)
        ensures
            r.rest_kind == self@.rest_kind,
            r.response_kind == ResponseKind::Success,
            r.data.name@ == self@.route,
            opt_string_view(r.data.description) == self@.description,
            r.data.hazards@ == self@.hazards,
            r.data.inputs@ == self@.inputs,
    {
        RouteConfig::new(self)
    }
}

}
