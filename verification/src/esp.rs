use vstd::prelude::*;

use crate::device::{DeviceData, DeviceKind};
use crate::route::{describes, first_routes, serialize_routes, RouteHazards};
use crate::hazards::Hazards;

verus! {

/// The maximum number of actions of a board device.
pub const MAXIMUM_ELEMENTS: usize = 16;

#[verifier::external_type_specification]
#[verifier::external_body]
#[verifier::reject_recursive_types(T)]
pub struct ExHeaplessVec<T, const N: usize>(heapless::Vec<T, N>);

/// The routes held by a fixed-capacity vector of routes with their
/// hazards, in order.
pub uninterp spec fn held_routes(v: heapless::Vec<RouteHazards, 16>) -> Seq<RouteHazards>;

/// `heapless::Vec::new`: an empty vector.
#[verifier::external_body]
fn routes_new() -> (r: heapless::Vec<RouteHazards, 16>)
    ensures
        held_routes(r) == Seq::<RouteHazards>::empty(),
{
    heapless::Vec::new()
}

/// `heapless::Vec::len`: the number of routes held.
#[verifier::external_body]
fn routes_len(v: &heapless::Vec<RouteHazards, 16>) -> (r: usize)
    ensures
        r == held_routes(*v).len(),
        r <= 16,
{
    v.len()
}

/// `heapless::Vec::push`: appends a route when fewer than the capacity are
/// held; otherwise leaves the vector unchanged and hands the route back.
#[verifier::external_body]
fn routes_push(v: &mut heapless::Vec<RouteHazards, 16>, item: RouteHazards) -> (r: Result<(), RouteHazards>)
    ensures
        held_routes(*old(v)).len() < 16 ==> r is Ok && held_routes(*final(v)) == held_routes(*old(v)).push(item),
        held_routes(*old(v)).len() >= 16 ==> r is Err && r->Err_0 == item && held_routes(*final(v)) == held_routes(*old(v)),
{
    v.push(item)
}

/// `heapless::Vec::as_slice`: the routes held, as a slice.
#[verifier::external_body]
fn routes_as_slice(v: &heapless::Vec<RouteHazards, 16>) -> (r: &[RouteHazards])
    ensures
        r@ == held_routes(*v),
{
    v.as_slice()
}

/// A device action of a board: a route with its hazards.
pub type DeviceAction = RouteHazards;

/// Creates a [`DeviceAction`] without hazards.
pub fn no_hazards(route: crate::route::Route) -> (r: DeviceAction)
    ensures
        r.route == route,
        r.hazards@ == Seq::<crate::hazards::Hazard>::empty(),
{
    RouteHazards::new(route, Hazards::new())
}

/// The default main route of a board device.
pub const DEFAULT_MAIN_ROUTE: &'static str = "/device";

/// A general smart home device running on a board, with at most
/// [`MAXIMUM_ELEMENTS`] actions.
#[derive(Debug)]
pub struct Device {
    kind: DeviceKind,
    main_route: &'static str,
    routes_data: heapless::Vec<RouteHazards, 16>,
}

impl Device {
    /// The kind of the device.
    pub closed spec fn kind(&self) -> DeviceKind {
        self.kind
    }

    /// The main route of the device.
    pub closed spec fn main_route_view(&self) -> Seq<char> {
        self.main_route@
    }

    /// The actions of the device, in order.
    pub closed spec fn actions(&self) -> Seq<RouteHazards> {
        held_routes(self.routes_data)
    }

    /// Creates a new [`Device`] instance.
    pub fn new(kind: DeviceKind) -> (r: Self)
        ensures
            r.kind() == kind,
            r.main_route_view() == DEFAULT_MAIN_ROUTE@,
            r.actions() == Seq::<RouteHazards>::empty(),
    {
        Device { kind, main_route: DEFAULT_MAIN_ROUTE, routes_data: routes_new() }
    }

    /// Sets a new main route.
    pub fn main_route(self, main_route: &'static str) -> (r: Self)
        ensures
            r.kind() == self.kind(),
            r.main_route_view() == main_route@,
            r.actions() == self.actions(),
    {
        Device { main_route, ..self }
    }

    /// Adds a [`DeviceAction`]; a device that already has
    /// [`MAXIMUM_ELEMENTS`] actions drops it.
    pub fn add_action(self, device_action: DeviceAction) -> (r: Self)
        ensures
            r.kind() == self.kind(),
            r.main_route_view() == self.main_route_view(),
            self.actions().len() < MAXIMUM_ELEMENTS ==> r.actions() == self.actions().push(device_action),
            self.actions().len() >= MAXIMUM_ELEMENTS ==> r.actions() == self.actions(),
    {
        let mut r = self;
        let _ = routes_push(&mut r.routes_data, device_action);
        r
    }

    /// Returns the number of actions, which never exceeds
    /// [`MAXIMUM_ELEMENTS`].
    pub fn len(&self) -> (r: usize)
        ensures
            r == self.actions().len(),
            r <= MAXIMUM_ELEMENTS,
    {
        routes_len(&self.routes_data)
    }

    /// Serializes the device data: its kind, its main route and the
    /// configuration of each of its routes, in order, leaving out a route
    /// whose configuration is the same as the one of an earlier route.
    pub fn serialize_data(&self) -> (r: DeviceData<'_>)
        ensures
            r.kind == self.kind(),
            r.main_route@ == self.main_route_view(),
            r.route_configs@.len() == first_routes(self.actions()).len(),
            forall|i: int| 0 <= i < r.route_configs@.len() ==>
                describes(#[trigger] r.route_configs@[i], first_routes(self.actions())[i]),
    {
        let route_configs = serialize_routes(routes_as_slice(&self.routes_data));
        DeviceData { kind: self.kind, main_route: self.main_route, route_configs }
    }
}

}
