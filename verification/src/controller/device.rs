use vstd::prelude::*;

use crate::controller::request::{RequestSender, RequestSenderView};
use crate::device::DeviceEnvironment;
use crate::stack::RouteConfig;
use crate::named::NamedMap;

verus! {

/// The request senders built from `configs`, by route name: the sender of
/// the last configuration with a given name.
pub open spec fn senders_of(
    configs: Seq<RouteConfig>,
    address: Seq<char>,
    main_route: Seq<char>,
    environment: DeviceEnvironment,
) -> Map<Seq<char>, RequestSenderView>
    decreases configs.len(),
{
    if configs.len() == 0 {
        Map::empty()
    } else {
        let c = configs.last();
        senders_of(configs.drop_last(), address, main_route, environment).insert(
            c.data.name@,
            crate::controller::request::sender_of(address, main_route, environment, c),
        )
    }
}

/// The request senders of a device, by route name.
pub type RequestSenders = NamedMap<RequestSender>;

/// Builds the request senders of the routes described by `route_configs`,
/// by route name, for the device reachable at `complete_address` under
/// `main_route`. When two configurations have the same name, the last one
/// is kept.
pub fn create_requests_senders(
    route_configs: Vec<RouteConfig>,
    complete_address: &str,
    main_route: &str,
    environment: DeviceEnvironment,
) -> (r: RequestSenders)
    ensures
        r@ == senders_of(route_configs@, complete_address@, main_route@, environment),
{
    let ghost all = route_configs@;
    let count = route_configs.len();
    let mut senders = RequestSenders::new();
    let mut configs = route_configs;
    let mut i: usize = 0;
    assert(all.skip(0) == all);
    while configs.len() > 0
        invariant
            0 <= i <= all.len(),
            all.len() == count,
            configs@ == all.skip(i as int),
            senders@ == senders_of(all.take(i as int), complete_address@, main_route@, environment),
        decreases configs@.len(),
    {
        let config = configs.remove(0);
        proof {
            assert(config == all[i as int]);
            assert(all.take(i + 1).drop_last() == all.take(i as int));
            assert(all.take(i + 1).last() == all[i as int]);
        }
        let name = config.data.name.clone();
        let sender = RequestSender::new(complete_address, main_route, environment, config);
        senders.insert(name, sender);
        i = i + 1;
        assert(configs@ == all.skip(i as int));
    }
    proof {
        assert(all.take(i as int) == all);
    }
    senders
}

/// A device found by a controller: where it is and the requests it
/// accepts.
#[derive(Debug)]
pub struct Device {
    address: String,
    main_route: String,
    environment: DeviceEnvironment,
    requests: RequestSenders,
}

/// The abstract state of a [`Device`].
pub struct DeviceView {
    /// Complete address.
    pub address: Seq<char>,
    /// Main route.
    pub main_route: Seq<char>,
    /// Environment.
    pub environment: DeviceEnvironment,
    /// Request senders, by route name.
    pub requests: Map<Seq<char>, RequestSenderView>,
}

impl View for Device {
    type V = DeviceView;

    closed spec fn view(&self) -> DeviceView {
        DeviceView {
            address: self.address@,
            main_route: self.main_route@,
            environment: self.environment,
            requests: self.requests@,
        }
    }
}

impl Device {
    /// Creates a [`Device`] reachable at `address` under `main_route` with
    /// the routes described by `route_configs`.
    pub fn new(
        address: &str,
        main_route: &str,
        environment: DeviceEnvironment,
        route_configs: Vec<RouteConfig>,
    ) -> (r: Self)
        ensures
            r@.address == address@,
            r@.main_route == main_route@,
            r@.environment == environment,
            r@.requests == senders_of(route_configs@, address@, main_route@, environment),
    {
        let requests = create_requests_senders(route_configs, address, main_route, environment);
        Device {
            address: String::from_str(address),
            main_route: String::from_str(main_route),
            environment,
            requests,
        }
    }

    /// Returns the request sender for the route `route`, if any.
    pub fn request(&self, route: &str) -> (r: Option<&RequestSender>)
        ensures
            match r {
                Some(s) => self@.requests.contains_key(route@) && s@ == self@.requests[route@],
                None => !self@.requests.contains_key(route@),
            },
    {
        self.requests.get(route)
    }

    /// Returns the complete address of the device.
    pub fn address(&self) -> (r: &str)
        ensures
            r@ == self@.address,
    {
        self.address.as_str()
    }

    /// Returns the main route of the device.
    pub fn main_route(&self) -> (r: &str)
        ensures
            r@ == self@.main_route,
    {
        self.main_route.as_str()
    }
}

/// A collection of devices, each identified by its position.
#[derive(Debug)]
pub struct Devices {
    devices: Vec<Device>,
}

impl View for Devices {
    type V = Seq<DeviceView>;

    closed spec fn view(&self) -> Seq<DeviceView> {
        self.devices@.map_values(|d: Device| d@)
    }
}

impl Devices {
    /// Creates an empty collection of devices.
    pub fn new() -> (r: Self)
        ensures
            r@ == Seq::<DeviceView>::empty(),
    {
        let r = Devices { devices: Vec::new() };
        assert(r@ =~= Seq::<DeviceView>::empty());
        r
    }

    /// Adds a device, whose identifier is the number of devices before it.
    pub fn add(&mut self, device: Device)
        ensures
            final(self)@ == old(self)@.push(device@),
    {
        let ghost d = device@;
        self.devices.push(device);
        assert(self@ =~= old(self)@.push(d));
    }

    /// Returns whether there are no devices.
    pub fn is_empty(&self) -> (r: bool)
        ensures
            r == (self@.len() == 0),
    {
        self.devices.len() == 0
    }

    /// Returns the number of devices.
    pub fn len(&self) -> (r: usize)
        ensures
            r == self@.len(),
    {
        self.devices.len()
    }

    /// Returns the device with identifier `id`, if any.
    pub fn get(&self, id: usize) -> (r: Option<&Device>)
        ensures
            match r {
                Some(d) => id < self@.len() && d@ == self@[id as int],
                None => id >= self@.len(),
            },
    {
        if id < self.devices.len() {
            Some(&self.devices[id])
        } else {
            None
        }
    }
}

}
