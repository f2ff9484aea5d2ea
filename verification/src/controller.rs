pub mod device;
pub mod discovery;
pub mod error;
pub mod parameters;
pub mod policy;
pub mod request;

use vstd::prelude::*;

use crate::hazards::{seq_intersection, Hazard};
use crate::text::{decimal, push_decimal};
use device::{DeviceView, Devices};
use discovery::Discovery;
use error::{Error, ErrorKind};
use parameters::{first_problem, Parameters};
use policy::{Policy, PolicyView};
use request::{pairs_view, request_address, request_parameters, RequestData};

verus! {

/// Creates an [`Error`] about sending a request.
pub fn sender_error(info: String) -> (r: Error)
    ensures
        r.kind == ErrorKind::Sender,
        r.info == info,
{
    Error::new(ErrorKind::Sender, info)
}

/// The message of the error for a controller without devices.
pub open spec fn no_devices_message() -> Seq<char> {
    "No devices found."@
}

/// The message of the error for a device identifier that does not exist.
pub open spec fn missing_device_message(id: usize) -> Seq<char> {
    "Error in retrieving the device with identifier "@ + decimal(id as nat) + "."@
}

/// The message of the error for a route that a device does not have.
pub open spec fn missing_request_message(route: Seq<char>) -> Seq<char> {
    "Error in retrieving the request with route `"@ + route + "`."@
}

/// Whether a request with the given hazards is skipped for the device `id`:
/// some of its hazards is blocked by the policy on that device.
pub open spec fn is_skipped(policy: PolicyView, id: usize, hazards: Seq<Hazard>) -> bool {
    exists|h: Hazard| hazards.contains(h) && #[trigger] policy.blocks(id, h)
}

/// An intersection of hazards is empty exactly when no hazard occurs in
/// both sequences.
pub proof fn lemma_intersection_empty(s: Seq<Hazard>, t: Seq<Hazard>)
    ensures
        seq_intersection(s, t).len() == 0 <==> !(exists|h: Hazard| s.contains(h) && t.contains(h)),
{
    broadcast use vstd::seq_lib::group_filter_ensures;
    let pred = |h: Hazard| t.contains(h);
    if seq_intersection(s, t).len() != 0 {
        let h = seq_intersection(s, t)[0];
        assert(seq_intersection(s, t).contains(h));
        s.lemma_filter_contains_rev(pred, h);
    }
    if exists|h: Hazard| s.contains(h) && t.contains(h) {
        let h = choose|h: Hazard| s.contains(h) && t.contains(h);
        let i = choose|i: int| 0 <= i < s.len() && s[i] == h;
        assert(pred(s[i]));
        assert(seq_intersection(s, t).contains(s[i]));
    }
}

/// A request is skipped exactly when the policy blocks some of its hazards
/// on every device, or on its device in particular: when the hazards that
/// the policy functions report as blocked are not all empty.
pub proof fn law_skip_is_blocked_hazards(policy: PolicyView, id: usize, hazards: Seq<Hazard>)
    ensures
        is_skipped(policy, id, hazards) <==> (seq_intersection(policy.global, hazards).len() > 0
            || seq_intersection(policy.local_for(id), hazards).len() > 0),
{
    lemma_intersection_empty(policy.global, hazards);
    lemma_intersection_empty(policy.local_for(id), hazards);
    if is_skipped(policy, id, hazards) {
        let h = choose|h: Hazard| hazards.contains(h) && #[trigger] policy.blocks(id, h);
        assert(policy.global.contains(h) || policy.local_for(id).contains(h));
    }
    if seq_intersection(policy.global, hazards).len() > 0 {
        let h = choose|h: Hazard| policy.global.contains(h) && hazards.contains(h);
        assert(policy.blocks(id, h));
    }
    if seq_intersection(policy.local_for(id), hazards).len() > 0 {
        let h = choose|h: Hazard| policy.local_for(id).contains(h) && hazards.contains(h);
        assert(policy.blocks(id, h));
    }
}

/// A request without hazards is never skipped.
pub proof fn law_no_hazards_never_skipped(policy: PolicyView, id: usize)
    ensures
        !is_skipped(policy, id, Seq::empty()),
{
}

/// A policy that blocks nothing skips no request.
pub proof fn law_empty_policy_skips_nothing(id: usize, hazards: Seq<Hazard>)
    ensures
        !is_skipped(PolicyView { global: Seq::empty(), local: Map::empty() }, id, hazards),
{
}

/// A request is skipped for a device as soon as one of its hazards is
/// blocked on every device.
pub proof fn law_global_block_skips_everywhere(policy: PolicyView, id: usize, hazards: Seq<Hazard>, h: Hazard)
    requires
        hazards.contains(h),
        policy.global.contains(h),
    ensures
        is_skipped(policy, id, hazards),
{
    assert(policy.blocks(id, h));
}

/// A request is skipped on a device as soon as one of its hazards is among
/// the hazards the policy lists for that device.
pub proof fn law_device_block_skips(policy: PolicyView, id: usize, hazards: Seq<Hazard>, h: Hazard)
    requires
        hazards.contains(h),
        policy.local.contains_key(id),
        policy.local[id].contains(h),
    ensures
        is_skipped(policy, id, hazards),
{
    policy::law_listed_hazard_blocked_on_device(policy, id, hazards, h);
}

/// The abstract state of a [`Controller`].
pub struct ControllerView {
    /// Domain of the devices to discover.
    pub domain: Seq<char>,
    /// Time a discovery process waits for devices, in milliseconds.
    pub timeout_millis: u64,
    /// Devices, each identified by its position.
    pub devices: Seq<DeviceView>,
    /// Privacy policy.
    pub policy: PolicyView,
}

/// A controller for sending requests.
///
/// It sends or does not send requests to devices according to a privacy
/// policy.
///
/// When the controller receives a response from a device, it forwards it
/// directly to the caller.
#[derive(Debug)]
pub struct Controller {
    discovery: Discovery,
    devices: Devices,
    privacy_policy: Policy,
}

impl View for Controller {
    type V = ControllerView;

    closed spec fn view(&self) -> ControllerView {
        ControllerView {
            domain: self.discovery.domain@,
            timeout_millis: self.discovery.timeout_millis,
            devices: self.devices@,
            policy: self.privacy_policy@,
        }
    }
}

impl Controller {
    /// Creates a [`Controller`] given a [`Discovery`] configuration.
    pub fn new(discovery: Discovery) -> (r: Self)
        ensures
            r@.domain == discovery.domain@,
            r@.timeout_millis == discovery.timeout_millis,
            r@.devices == Seq::<DeviceView>::empty(),
            r@.policy.global == Seq::<Hazard>::empty(),
            r@.policy.local == Map::<usize, Seq<Hazard>>::empty(),
    {
        Controller { discovery, devices: Devices::new(), privacy_policy: Policy::init() }
    }

    /// Creates a [`Controller`] from a [`Discovery`] configuration and
    /// a set of initial [`Devices`].
    pub fn from_devices(discovery: Discovery, devices: Devices) -> (r: Self)
        ensures
            r@.domain == discovery.domain@,
            r@.timeout_millis == discovery.timeout_millis,
            r@.devices == devices@,
            r@.policy.global == Seq::<Hazard>::empty(),
            r@.policy.local == Map::<usize, Seq<Hazard>>::empty(),
    {
        Controller { discovery, devices, privacy_policy: Policy::init() }
    }

    /// Sets a [`Policy`].
    pub fn policy(self, privacy_policy: Policy) -> (r: Self)
        ensures
            r@ == (ControllerView { policy: privacy_policy@, ..self@ }),
    {
        let mut r = self;
        r.privacy_policy = privacy_policy;
        r
    }

    /// Changes the preset [`Policy`].
    pub fn change_policy(&mut self, privacy_policy: Policy)
        ensures
            final(self)@ == (ControllerView { policy: privacy_policy@, ..old(self)@ }),
    {
        self.privacy_policy = privacy_policy;
    }

    /// Replaces the devices of the controller with the ones a discovery
    /// process found.
    pub fn update_devices(&mut self, devices: Devices)
        ensures
            final(self)@ == (ControllerView { devices: devices@, ..old(self)@ }),
    {
        self.devices = devices;
    }

    /// Returns controller [`Devices`].
    pub fn devices(&self) -> (r: &Devices)
        ensures
            r@ == self@.devices,
    {
        &self.devices
    }

    /// Returns the [`Discovery`] configuration.
    pub fn discovery(&self) -> (r: &Discovery)
        ensures
            r.domain@ == self@.domain,
            r.timeout_millis == self@.timeout_millis,
    {
        &self.discovery
    }

    /// Returns the privacy [`Policy`].
    pub fn privacy_policy(&self) -> (r: &Policy)
        ensures
            r@ == self@.policy,
    {
        &self.privacy_policy
    }

    /// Builds a [`DeviceSender`] for the device with the given identifier.
    ///
    /// # Errors
    ///
    /// An error is returned when there are no devices or the given
    /// identifier **does** not exist.
    pub fn device(&self, id: usize) -> (r: Result<DeviceSender<'_>, Error>)
        ensures
            self@.devices.len() == 0 ==> r is Err && r->Err_0.kind == ErrorKind::Sender
                && r->Err_0.info@ == no_devices_message(),
            0 < self@.devices.len() <= id ==> r is Err && r->Err_0.kind == ErrorKind::Sender
                && r->Err_0.info@ == missing_device_message(id),
            id < self@.devices.len() ==> r is Ok && r->Ok_0@.controller == self@
                && r->Ok_0@.device == self@.devices[id as int] && r->Ok_0@.id == id,
    {
        if self.devices.is_empty() {
            return Err(sender_error(String::from_str("No devices found.")));
        }
        match self.devices.get(id) {
            Some(device) => Ok(DeviceSender { controller: self, device, id }),
            None => {
                let mut info = String::from_str("Error in retrieving the device with identifier ");
                push_decimal(&mut info, id as u64);
                info.append(".");
                Err(sender_error(info))
            },
        }
    }
}

/// The abstract state of a [`DeviceSender`].
pub struct DeviceSenderView {
    /// The controller.
    pub controller: ControllerView,
    /// The device.
    pub device: DeviceView,
    /// The identifier of the device.
    pub id: usize,
}

/// A sender for the requests of a determined device.
#[derive(Debug)]
pub struct DeviceSender<'controller> {
    controller: &'controller Controller,
    device: &'controller device::Device,
    id: usize,
}

impl<'controller> View for DeviceSender<'controller> {
    type V = DeviceSenderView;

    closed spec fn view(&self) -> DeviceSenderView {
        DeviceSenderView { controller: self.controller@, device: self.device@, id: self.id }
    }
}

impl<'controller> DeviceSender<'controller> {
    /// Builds the [`RequestSender`] for the given request, identified by its
    /// route, associated with this [`DeviceSender`] instance.
    ///
    /// The request is skipped when the privacy policy blocks some of its
    /// hazards, on every device or on this one.
    ///
    /// # Errors
    ///
    /// An error is returned when the given route **does** not exist.
    pub fn request(&self, route: &str) -> (r: Result<RequestSender<'controller>, Error>)
        ensures
            !self@.device.requests.contains_key(route@) ==> r is Err && r->Err_0.kind == ErrorKind::Sender
                && r->Err_0.info@ == missing_request_message(route@),
            self@.device.requests.contains_key(route@) ==> r is Ok
                && r->Ok_0@.controller == self@.controller
                && r->Ok_0@.request == self@.device.requests[route@]
                && r->Ok_0@.skip == is_skipped(self@.controller.policy, self@.id,
                    self@.device.requests[route@].hazards),
    {
        match self.device.request(route) {
            None => {
                let mut info = String::from_str("Error in retrieving the request with route `");
                info.append(route);
                info.append("`.");
                Err(sender_error(info))
            },
            Some(request) => {
                let skip = if request.hazards().is_empty() {
                    false
                } else {
                    self.evaluate_privacy_policy(request)
                };
                Ok(RequestSender { controller: self.controller, request, skip })
            },
        }
    }

    fn evaluate_privacy_policy(&self, request: &request::RequestSender) -> (r: bool)
        ensures
            r == is_skipped(self@.controller.policy, self@.id, request@.hazards),
    {
        let mut skip = false;

        let global_blocked_hazards = self.controller.privacy_policy.global_blocked_hazards(request.hazards());
        let local_blocked_hazards = self.controller.privacy_policy.local_blocked_hazards(self.id, request.hazards());

        if !global_blocked_hazards.is_empty() {
            skip = true;
        }
        if !local_blocked_hazards.is_empty() {
            skip = true;
        }
        proof {
            let p = self.controller.privacy_policy@;
            let hz = request@.hazards;
            lemma_intersection_empty(p.global, hz);
            lemma_intersection_empty(p.local_for(self.id), hz);
            if is_skipped(p, self.id, hz) {
                let h = choose|h: Hazard| hz.contains(h) && #[trigger] p.blocks(self.id, h);
                assert(p.global.contains(h) || p.local_for(self.id).contains(h));
            }
            if skip {
                if global_blocked_hazards@.len() != 0 {
                    let h = choose|h: Hazard| p.global.contains(h) && hz.contains(h);
                    assert(p.blocks(self.id, h));
                } else {
                    let h = choose|h: Hazard| p.local_for(self.id).contains(h) && hz.contains(h);
                    assert(p.blocks(self.id, h));
                }
            }
        }
        skip
    }
}

/// The abstract state of a [`RequestSender`].
pub struct RequestSenderView {
    /// The controller.
    pub controller: ControllerView,
    /// The request.
    pub request: request::RequestSenderView,
    /// Whether the privacy policy blocks the request.
    pub skip: bool,
}

/// A request of a device, ready to be sent by a controller unless its
/// privacy policy blocks it.
#[derive(Debug)]
pub struct RequestSender<'controller> {
    controller: &'controller Controller,
    request: &'controller request::RequestSender,
    skip: bool,
}

impl<'controller> View for RequestSender<'controller> {
    type V = RequestSenderView;

    closed spec fn view(&self) -> RequestSenderView {
        RequestSenderView { controller: self.controller@, request: self.request@, skip: self.skip }
    }
}

impl<'controller> RequestSender<'controller> {
    /// Returns the controller that built the request sender.
    pub fn controller(&self) -> (r: &'controller Controller)
        ensures
            r@ == self@.controller,
    {
        self.controller
    }

    /// Returns whether the privacy policy blocks the request.
    pub fn skip(&self) -> (r: bool)
        ensures
            r == self@.skip,
    {
        self.skip
    }

    /// Returns the request.
    pub fn request(&self) -> (r: &'controller request::RequestSender)
        ensures
            r@ == self@.request,
    {
        self.request
    }

    /// Returns the data to send for the request, or [`None`] when the
    /// privacy policy blocks it.
    ///
    /// With parameters, the given values are sent; a request without inputs
    /// ignores them and is sent with its default values, as it is without
    /// parameters.
    ///
    /// # Errors
    ///
    /// An error is returned when a parameter names no input of the request
    /// or has a value of the wrong type.
    pub fn prepare(&self, parameters: Option<&Parameters>) -> (r: Option<Result<RequestData, Error>>)
        ensures
            self@.skip ==> r is None,
            !self@.skip ==> r is Some,
            !self@.skip && (parameters is None || self@.request.parameters.len() == 0) ==> (r matches Some(Ok(d))
                && d.request@ == request_address(self@.request, Seq::empty())
                && pairs_view(d.parameters@) == request_parameters(self@.request.parameters, Seq::empty())),
            !self@.skip && parameters is Some && self@.request.parameters.len() > 0 ==> {
                let p = parameters->0@;
                match first_problem(p, self@.request.parameters) {
                    Some(m) => (r matches Some(Err(e)) && e.kind == ErrorKind::WrongParameter && e.info@ == m),
                    None => (r matches Some(Ok(d)) && d.request@ == request_address(self@.request, p)
                        && pairs_view(d.parameters@) == request_parameters(self@.request.parameters, p)),
                }
            },
    {
        if self.skip {
            return None;
        }
        match parameters {
            Some(p) => {
                if self.request.params().is_none() {
                    Some(Ok(self.request.plain_request_data()))
                } else {
                    Some(self.request.create_request(p))
                }
            },
            None => Some(Ok(self.request.plain_request_data())),
        }
    }
}

}
