use vstd::prelude::*;

use crate::controller::error::Error;
use crate::controller::parameters::{
    convert_to_parameter_value, default_value, first_problem, given_value, value_as_string,
    value_text, ParameterValue, Parameters,
};
use crate::device::DeviceEnvironment;
use crate::hazards::{Hazard, Hazards};
use crate::input::{Input, Inputs};
use crate::response::ResponseKind;
use crate::route::RestKind;
use crate::stack::RouteConfig;

verus! {

/// `s` without its final slash, unless `s` is a single character.
pub open spec fn trim_end_slash(s: Seq<char>) -> Seq<char> {
    if s.len() > 1 && s.last() == '/' { s.drop_last() } else { s }
}

/// `s` without its first slash, unless `s` is a single character.
pub open spec fn trim_start_slash(s: Seq<char>) -> Seq<char> {
    if s.len() > 1 && s[0] == '/' { s.drop_first() } else { s }
}

/// Removes the final slash of `s`, unless `s` is a single character.
pub fn slash_end(s: &str) -> (r: &str)
    ensures
        r@ == trim_end_slash(s@),
{
    let len = s.unicode_len();
    if len > 1 && s.get_char(len - 1) == '/' {
        s.substring_char(0, len - 1)
    } else {
        s
    }
}

/// Removes the first slash of `s`, unless `s` is a single character.
pub fn slash_start(s: &str) -> (r: &str)
    ensures
        r@ == trim_start_slash(s@),
{
    let len = s.unicode_len();
    if len > 1 && s.get_char(0) == '/' {
        s.substring_char(1, len)
    } else {
        s
    }
}

/// Removes the final slash, then the first slash, of `s`.
pub fn slash_start_end(s: &str) -> (r: &str)
    ensures
        r@ == trim_start_slash(trim_end_slash(s@)),
{
    slash_start(slash_end(s))
}

/// The complete route of a request: the device address, the main route of
/// the device and the route name, joined by slashes.
pub open spec fn complete_route(address: Seq<char>, main_route: Seq<char>, name: Seq<char>) -> Seq<char> {
    trim_end_slash(address) + seq!['/'] + trim_start_slash(trim_end_slash(main_route)) + seq!['/']
        + trim_start_slash(trim_end_slash(name))
}

/// A final slash after the main route of a device does not change the
/// routes of its requests.
pub proof fn law_main_route_trailing_slash(address: Seq<char>, main_route: Seq<char>, name: Seq<char>)
    requires
        main_route.len() >= 1,
        main_route.last() != '/',
    ensures
        complete_route(address, main_route.push('/'), name) == complete_route(address, main_route, name),
{
    assert(main_route.push('/').drop_last() == main_route);
}

/// A leading slash before the main route of a device does not change the
/// routes of its requests.
pub proof fn law_main_route_leading_slash(address: Seq<char>, main_route: Seq<char>, name: Seq<char>)
    requires
        main_route.len() >= 1,
        main_route[0] != '/',
    ensures
        complete_route(address, seq!['/'] + main_route, name) == complete_route(address, main_route, name),
{
    let m = seq!['/'] + main_route;
    if main_route.len() > 1 && main_route.last() == '/' {
        assert(m.drop_last() == seq!['/'] + main_route.drop_last());
        assert((seq!['/'] + main_route.drop_last()).drop_first() == main_route.drop_last());
    } else {
        assert(m.drop_first() == main_route);
        if main_route.len() == 1 {
            assert(m.last() == main_route[0]);
        } else {
            assert(m.last() == main_route.last());
        }
    }
}

/// The value a request sends for `input`: the given one, if any, otherwise
/// the default one.
pub open spec fn resolved_value(input: Input, given: Seq<(Seq<char>, ParameterValue)>) -> Option<ParameterValue> {
    match given_value(given, input.name@) {
        Some(v) => Some(v),
        None => default_value(input.structure),
    }
}

/// A route followed by the value of each input that has one, each preceded
/// by a slash.
pub open spec fn axum_route(route: Seq<char>, inputs: Seq<Input>, given: Seq<(Seq<char>, ParameterValue)>) -> Seq<char>
    decreases inputs.len(),
{
    if inputs.len() == 0 {
        route
    } else {
        let prefix = axum_route(route, inputs.drop_last(), given);
        match resolved_value(inputs.last(), given) {
            Some(v) => prefix + seq!['/'] + value_text(v),
            None => prefix,
        }
    }
}

/// The name and the value text of each input that has a value.
pub open spec fn request_parameters(inputs: Seq<Input>, given: Seq<(Seq<char>, ParameterValue)>) -> Seq<(Seq<char>, Seq<char>)>
    decreases inputs.len(),
{
    if inputs.len() == 0 {
        Seq::empty()
    } else {
        let prefix = request_parameters(inputs.drop_last(), given);
        match resolved_value(inputs.last(), given) {
            Some(v) => prefix.push((inputs.last().name@, value_text(v))),
            None => prefix,
        }
    }
}

/// The text an input adds to the parameters of a request, or after a slash
/// to its route: that of the value given for its name whatever its type,
/// and only when none is given, that of its default value.
pub open spec fn sent_text(input: Input, given: Seq<(Seq<char>, ParameterValue)>) -> Option<Seq<char>> {
    match given_value(given, input.name@) {
        Some(v) => Some(value_text(v)),
        None => match default_value(input.structure) {
            Some(d) => Some(value_text(d)),
            None => None,
        },
    }
}

/// Each input adds to the route of a request a slash and the text of the
/// value given for it, or else of its default value, after the inputs
/// before it.
pub proof fn law_route_input_value(route: Seq<char>, inputs: Seq<Input>, input: Input, given: Seq<(Seq<char>, ParameterValue)>)
    ensures
        axum_route(route, inputs.push(input), given) == match sent_text(input, given) {
            Some(t) => axum_route(route, inputs, given) + seq!['/'] + t,
            None => axum_route(route, inputs, given),
        },
{
    assert(inputs.push(input).drop_last() == inputs);
}

/// Each input adds to the parameters of a request its name with the text of
/// the value given for it, or else of its default value, after the
/// parameters of the inputs before it.
pub proof fn law_parameters_input_value(inputs: Seq<Input>, input: Input, given: Seq<(Seq<char>, ParameterValue)>)
    ensures
        request_parameters(inputs.push(input), given) == match sent_text(input, given) {
            Some(t) => request_parameters(inputs, given).push((input.name@, t)),
            None => request_parameters(inputs, given),
        },
{
    assert(inputs.push(input).drop_last() == inputs);
}

/// A value given for the name of an input, of any type, is sent in the
/// parameters of the request under that name.
pub proof fn law_given_value_is_sent(inputs: Seq<Input>, k: int, given: Seq<(Seq<char>, ParameterValue)>, v: ParameterValue)
    requires
        0 <= k < inputs.len(),
        given_value(given, inputs[k].name@) == Some(v),
    ensures
        request_parameters(inputs, given).contains((inputs[k].name@, value_text(v))),
    decreases inputs.len(),
{
    let prefix = request_parameters(inputs.drop_last(), given);
    if k == inputs.len() - 1 {
        assert(request_parameters(inputs, given) == prefix.push((inputs[k].name@, value_text(v))));
        assert(request_parameters(inputs, given)[prefix.len() as int] == (inputs[k].name@, value_text(v)));
    } else {
        assert(inputs.drop_last()[k] == inputs[k]);
        law_given_value_is_sent(inputs.drop_last(), k, given, v);
        let j = choose|j: int| 0 <= j < prefix.len() && prefix[j] == (inputs[k].name@, value_text(v));
        match resolved_value(inputs.last(), given) {
            Some(w) => {
                assert(request_parameters(inputs, given)[j] == prefix[j]);
            },
            None => {},
        }
    }
}

/// An input for which no value is given is sent with its default value.
pub proof fn law_default_value_is_sent(inputs: Seq<Input>, k: int, given: Seq<(Seq<char>, ParameterValue)>, d: ParameterValue)
    requires
        0 <= k < inputs.len(),
        given_value(given, inputs[k].name@) is None,
        default_value(inputs[k].structure) == Some(d),
    ensures
        request_parameters(inputs, given).contains((inputs[k].name@, value_text(d))),
    decreases inputs.len(),
{
    let prefix = request_parameters(inputs.drop_last(), given);
    if k == inputs.len() - 1 {
        assert(request_parameters(inputs, given) == prefix.push((inputs[k].name@, value_text(d))));
        assert(request_parameters(inputs, given)[prefix.len() as int] == (inputs[k].name@, value_text(d)));
    } else {
        assert(inputs.drop_last()[k] == inputs[k]);
        law_default_value_is_sent(inputs.drop_last(), k, given, d);
        let j = choose|j: int| 0 <= j < prefix.len() && prefix[j] == (inputs[k].name@, value_text(d));
        match resolved_value(inputs.last(), given) {
            Some(w) => {
                assert(request_parameters(inputs, given)[j] == prefix[j]);
            },
            None => {},
        }
    }
}

/// The views of a sequence of pairs of strings.
pub open spec fn pairs_view(s: Seq<(String, String)>) -> Seq<(Seq<char>, Seq<char>)> {
    s.map_values(|p: (String, String)| (p.0@, p.1@))
}

/// The data of a request: its address and its parameters.
#[derive(Debug)]
pub struct RequestData {
    /// The request address.
    pub request: String,
    /// The parameters, by name.
    pub parameters: Vec<(String, String)>,
}

impl RequestData {
    /// Creates a [`RequestData`].
    pub fn new(request: String, parameters: Vec<(String, String)>) -> (r: Self)
        ensures
            r.request == request,
            r.parameters == parameters,
    {
        RequestData { request, parameters }
    }
}

/// The abstract state of a [`RequestSender`].
pub struct RequestSenderView {
    /// `REST` kind.
    pub kind: RestKind,
    /// Hazards.
    pub hazards: Seq<Hazard>,
    /// Complete route.
    pub route: Seq<char>,
    /// Inputs of the request.
    pub parameters: Seq<Input>,
    /// Response kind.
    pub response_kind: ResponseKind,
    /// Device environment.
    pub device_environment: DeviceEnvironment,
}

/// The address a request is sent to: for a `GET` request to a device
/// running on an operating system, the route followed by the input values;
/// otherwise the route alone.
pub open spec fn request_address(v: RequestSenderView, given: Seq<(Seq<char>, ParameterValue)>) -> Seq<char> {
    if v.kind == RestKind::Get && v.device_environment == DeviceEnvironment::Os {
        axum_route(v.route, v.parameters, given)
    } else {
        v.route
    }
}

/// The state of the request sender built for the route described by
/// `config` on the device reachable at `address` under `main_route`.
pub open spec fn sender_of(
    address: Seq<char>,
    main_route: Seq<char>,
    environment: DeviceEnvironment,
    config: RouteConfig,
) -> RequestSenderView {
    RequestSenderView {
        kind: config.rest_kind,
        hazards: config.data.hazards@,
        route: complete_route(address, main_route, config.data.name@),
        parameters: config.data.inputs@,
        response_kind: config.response_kind,
        device_environment: environment,
    }
}

/// Request sender.
///
/// It holds what is needed to send a request to a device.
///
/// The request can be formed by the chaining of different parameters or a
/// plain one.
#[derive(Debug)]
pub struct RequestSender {
    kind: RestKind,
    hazards: Hazards,
    route: String,
    parameters_data: Inputs,
    response_kind: ResponseKind,
    device_environment: DeviceEnvironment,
}

impl View for RequestSender {
    type V = RequestSenderView;

    closed spec fn view(&self) -> RequestSenderView {
        RequestSenderView {
            kind: self.kind,
            hazards: self.hazards@,
            route: self.route@,
            parameters: self.parameters_data@,
            response_kind: self.response_kind,
            device_environment: self.device_environment,
        }
    }
}

impl RequestSender {
    /// Creates a [`RequestSender`] for the route described by `route_config`
    /// on the device reachable at `address` under `main_route`.
    pub fn new(
        address: &str,
        main_route: &str,
        device_environment: DeviceEnvironment,
        route_config: RouteConfig,
    ) -> (r: Self)
        ensures
            r@ == sender_of(address@, main_route@, device_environment, route_config),
    {
        let kind = route_config.rest_kind;
        let mut route = String::from_str(slash_end(address));
        route.append("/");
        route.append(slash_start_end(main_route));
        route.append("/");
        route.append(slash_start_end(route_config.data.name.as_str()));
        proof {
            reveal_strlit("/");
        }
        assert(route@ =~= complete_route(address@, main_route@, route_config.data.name@));
        RequestSender {
            kind,
            hazards: route_config.data.hazards,
            route,
            parameters_data: route_config.data.inputs,
            response_kind: route_config.response_kind,
            device_environment,
        }
    }

    /// Returns the request [`Hazards`].
    pub fn hazards(&self) -> (r: &Hazards)
        ensures
            r@ == self@.hazards,
    {
        &self.hazards
    }

    /// Returns the request [`RestKind`].
    pub fn kind(&self) -> (r: RestKind)
        ensures
            r == self@.kind,
    {
        self.kind
    }

    /// Returns the complete route of the request.
    pub fn route(&self) -> (r: &str)
        ensures
            r@ == self@.route,
    {
        self.route.as_str()
    }

    /// Returns the response kind of the request.
    pub fn response_kind(&self) -> (r: ResponseKind)
        ensures
            r == self@.response_kind,
    {
        self.response_kind
    }

    /// Returns the inputs of the request.
    ///
    /// If [`None`], the request does not have any input.
    pub fn params(&self) -> (r: Option<&Inputs>)
        ensures
            match r {
                Some(p) => self@.parameters.len() > 0 && p@ == self@.parameters,
                None => self@.parameters.len() == 0,
            },
    {
        if self.parameters_data.is_empty() {
            None
        } else {
            Some(&self.parameters_data)
        }
    }

    fn axum_get(&self, parameters: &Parameters) -> (r: String)
        ensures
            r@ == axum_route(self@.route, self@.parameters, parameters@),
    {
        let mut route = self.route.clone();
        let mut i: usize = 0;
        proof {
            reveal_strlit("/");
        }
        assert(self.parameters_data@.take(0) == Seq::<Input>::empty());
        while i < self.parameters_data.len()
            invariant
                0 <= i <= self.parameters_data@.len(),
                route@ == axum_route(self.route@, self.parameters_data@.take(i as int), parameters@),
            decreases self.parameters_data@.len() - i,
        {
            let input = self.parameters_data.get(i);
            assert(self.parameters_data@.take(i + 1).drop_last() == self.parameters_data@.take(i as int));
            let value = match parameters.get(input.name.as_str()) {
                Some(v) => Some(v),
                None => convert_to_parameter_value(input.structure),
            };
            if let Some(v) = value {
                let ghost before = route@;
                proof {
                    reveal_strlit("/");
                }
                route.append("/");
                let text = value_as_string(v);
                route.append(text.as_str());
                assert(route@ == before + seq!['/'] + value_text(v));
            }
            i = i + 1;
        }
        assert(self.parameters_data@.take(self.parameters_data@.len() as int) == self.parameters_data@);
        route
    }

    fn create_params(&self, parameters: &Parameters) -> (r: Vec<(String, String)>)
        ensures
            pairs_view(r@) == request_parameters(self@.parameters, parameters@),
    {
        let mut params: Vec<(String, String)> = Vec::new();
        let mut i: usize = 0;
        assert(self.parameters_data@.take(0) == Seq::<Input>::empty());
        while i < self.parameters_data.len()
            invariant
                0 <= i <= self.parameters_data@.len(),
                pairs_view(params@) == request_parameters(self.parameters_data@.take(i as int), parameters@),
            decreases self.parameters_data@.len() - i,
        {
            let input = self.parameters_data.get(i);
            assert(self.parameters_data@.take(i + 1).drop_last() == self.parameters_data@.take(i as int));
            let value = match parameters.get(input.name.as_str()) {
                Some(v) => Some(v),
                None => convert_to_parameter_value(input.structure),
            };
            if let Some(v) = value {
                let ghost before = params@;
                params.push((input.name.clone(), value_as_string(v)));
                assert(pairs_view(params@) =~= pairs_view(before).push((input.name@, value_text(v))));
            }
            i = i + 1;
        }
        assert(self.parameters_data@.take(self.parameters_data@.len() as int) == self.parameters_data@);
        params
    }

    fn request_data(&self, parameters: &Parameters) -> (r: RequestData)
        ensures
            r.request@ == request_address(self@, parameters@),
            pairs_view(r.parameters@) == request_parameters(self@.parameters, parameters@),
    {
        let request = if self.kind == RestKind::Get && self.device_environment == DeviceEnvironment::Os {
            self.axum_get(parameters)
        } else {
            self.route.clone()
        };
        let parameters = self.create_params(parameters);
        RequestData::new(request, parameters)
    }

    /// Returns the data of a request that sends the default value of each
    /// input.
    pub fn plain_request_data(&self) -> (r: RequestData)
        ensures
            r.request@ == request_address(self@, Seq::empty()),
            pairs_view(r.parameters@) == request_parameters(self@.parameters, Seq::empty()),
    {
        self.request_data(&Parameters::new())
    }

    /// Returns the data of a request that sends the given parameters, and
    /// the default value of each input that is not given.
    ///
    /// # Errors
    ///
    /// An error is returned when a parameter names no input of the request
    /// or has a value of the wrong type.
    pub fn create_request(&self, parameters: &Parameters) -> (r: Result<RequestData, Error>)
        ensures
            match first_problem(parameters@, self@.parameters) {
                Some(m) => r is Err && r->Err_0.kind == crate::controller::error::ErrorKind::WrongParameter
                    && r->Err_0.info@ == m,
                None => r is Ok && r->Ok_0.request@ == request_address(self@, parameters@)
                    && pairs_view(r->Ok_0.parameters@) == request_parameters(self@.parameters, parameters@),
            },
    {
        parameters.check_parameters(&self.parameters_data)?;
        Ok(self.request_data(parameters))
    }
}

}
