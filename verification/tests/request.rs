use ascot::controller::parameters::Parameters;
use ascot::controller::request::{slash_end, slash_start, slash_start_end, RequestSender};
use ascot::controller::error::ErrorKind;
use ascot::device::DeviceEnvironment;
use ascot::hazards::{Hazard, Hazards};
use ascot::input::{Input, InputStructure, Inputs};
use ascot::response::ResponseKind;
use ascot::route::RestKind;
use ascot::stack::Route;

const ADDRESS_ROUTE: &str = "http://ascot.local/";
const ADDRESS_ROUTE_WITHOUT_SLASH: &str = "http://ascot.local/";
const COMPLETE_ROUTE: &str = "http://ascot.local/light/route";

fn hazards_vec(h: &Hazards) -> Vec<Hazard> {
    (0..h.len()).map(|i| h.get(i)).collect()
}

fn inputs_vec(inputs: &Inputs) -> Vec<(String, InputStructure)> {
    (0..inputs.len())
        .map(|i| {
            let input = inputs.get(i);
            (input.name.clone(), input.structure)
        })
        .collect()
}

fn plain_request(route: Route, kind: RestKind, hazards: Hazards) {
    let route = route.serialize_data();

    let request_sender = RequestSender::new(ADDRESS_ROUTE, "light/", DeviceEnvironment::Os, route);

    assert_eq!(request_sender.kind(), kind);
    assert_eq!(hazards_vec(request_sender.hazards()), hazards_vec(&hazards));
    assert_eq!(request_sender.route(), COMPLETE_ROUTE);
    assert!(request_sender.params().is_none());
    assert_eq!(request_sender.response_kind(), ResponseKind::Success);
}

fn request_with_inputs(route: Route, kind: RestKind, hazards: &Hazards) {
    let route = route
        .with_inputs(
            Inputs::new()
                .insert(Input::rangeu64_with_default("rangeu64", (0, 20, 1), 5))
                .insert(Input::u64("u64", 0)),
        )
        .serialize_data();

    let request_sender = RequestSender::new(ADDRESS_ROUTE, "light/", DeviceEnvironment::Os, route);

    assert_eq!(request_sender.kind(), kind);
    assert_eq!(hazards_vec(request_sender.hazards()), hazards_vec(hazards));
    assert_eq!(request_sender.route(), COMPLETE_ROUTE);
    assert_eq!(request_sender.response_kind(), ResponseKind::Success);
    assert_eq!(
        inputs_vec(request_sender.params().unwrap()),
        vec![
            (
                "rangeu64".to_string(),
                InputStructure::RangeU64 { min: 0, max: 20, step: 1, default: 5 }
            ),
            ("u64".to_string(), InputStructure::U64 { default: 0 }),
        ]
    );

    // Non-existent value.
    let error = request_sender.create_request(&Parameters::new().u64("wrong", 0)).unwrap_err();
    assert_eq!(error.kind, ErrorKind::WrongParameter);
    assert_eq!(error.info, "`wrong` does not exist");

    // Wrong input type.
    let error = request_sender.create_request(&Parameters::new().bool("rangeu64", false)).unwrap_err();
    assert_eq!(error.kind, ErrorKind::WrongParameter);
    assert_eq!(error.info, "`rangeu64` must be of type `u64`");

    let data = request_sender.create_request(&Parameters::new().u64("rangeu64", 3)).unwrap();
    assert_eq!(
        data.request,
        if kind == RestKind::Get { format!("{COMPLETE_ROUTE}/3/0") } else { COMPLETE_ROUTE.to_string() }
    );
    assert_eq!(
        data.parameters,
        vec![("rangeu64".to_string(), "3".to_string()), ("u64".to_string(), "0".to_string())]
    );
}

fn request_generator(route: &str, main_route: &str, device_environment: DeviceEnvironment) {
    let route_config = Route::put("/route").serialize_data();
    let sender = RequestSender::new(route, main_route, device_environment, route_config);
    assert_eq!(sender.kind(), RestKind::Put);
    assert_eq!(sender.hazards().len(), 0);
    assert_eq!(sender.route(), COMPLETE_ROUTE);
    assert!(sender.params().is_none());
    assert_eq!(sender.response_kind(), ResponseKind::Success);
}

#[test]
fn check_request_generator() {
    let environment = DeviceEnvironment::Os;
    request_generator(ADDRESS_ROUTE, "light/", environment);
    request_generator(ADDRESS_ROUTE_WITHOUT_SLASH, "light", environment);
}

#[test]
fn create_plain_get_request() {
    let route = Route::get("/route").description("A GET route.");
    plain_request(route, RestKind::Get, Hazards::new());
}

#[test]
fn create_plain_post_request() {
    let route = Route::post("/route").description("A POST route.");
    plain_request(route, RestKind::Post, Hazards::new());
}

#[test]
fn create_plain_put_request() {
    let route = Route::put("/route").description("A PUT route.");
    plain_request(route, RestKind::Put, Hazards::new());
}

#[test]
fn create_plain_delete_request() {
    let route = Route::delete("/route").description("A DELETE route.");
    plain_request(route, RestKind::Delete, Hazards::new());
}

#[test]
fn create_plain_get_request_with_hazards() {
    let hazards = Hazards::new().insert(Hazard::FireHazard).insert(Hazard::AirPoisoning);
    plain_request(
        Route::get("/route").description("A GET route.").with_hazards(hazards.clone()),
        RestKind::Get,
        hazards,
    );
}

#[test]
fn create_get_request_with_inputs() {
    request_with_inputs(Route::get("/route").description("A GET route."), RestKind::Get, &Hazards::new());
}

#[test]
fn create_post_request_with_inputs() {
    let route = Route::post("/route").description("A POST route.");
    request_with_inputs(route, RestKind::Post, &Hazards::new());
}

#[test]
fn create_put_request_with_inputs() {
    let route = Route::put("/route").description("A PUT route.");
    request_with_inputs(route, RestKind::Put, &Hazards::new());
}

#[test]
fn create_delete_request_with_inputs() {
    let route = Route::delete("/route").description("A DELETE route.");
    request_with_inputs(route, RestKind::Delete, &Hazards::new());
}

#[test]
fn create_get_request_with_hazards_and_inputs() {
    let hazards = Hazards::new().insert(Hazard::FireHazard).insert(Hazard::AirPoisoning);
    request_with_inputs(
        Route::get("/route").description("A GET route.").with_hazards(hazards.clone()),
        RestKind::Get,
        &hazards,
    );
}

#[test]
fn slashes_are_trimmed_once() {
    assert_eq!(slash_end("light/"), "light");
    assert_eq!(slash_end("light//"), "light/");
    assert_eq!(slash_end("/"), "/");
    assert_eq!(slash_end(""), "");
    assert_eq!(slash_start("/route"), "route");
    assert_eq!(slash_start("/"), "/");
    assert_eq!(slash_start("route"), "route");
    assert_eq!(slash_start_end("/route/"), "route");
    assert_eq!(slash_start_end("//"), "/");
}

#[test]
fn plain_request_sends_default_values() {
    let route = Route::get("/on")
        .with_inputs(
            Inputs::new()
                .insert(Input::bool("enabled", true))
                .insert(Input::byte_stream("stream"))
                .insert(Input::rangeu64("level", (10, 20, 2))),
        )
        .serialize_data();
    let sender = RequestSender::new("http://host:3000", "/light", DeviceEnvironment::Os, route);
    let data = sender.plain_request_data();
    assert_eq!(data.request, "http://host:3000/light/on/true/10");
    assert_eq!(
        data.parameters,
        vec![
            ("enabled".to_string(), "true".to_string()),
            ("level".to_string(), "10".to_string())
        ]
    );
}

#[test]
fn board_get_request_keeps_plain_route() {
    let route = Route::get("/on").with_inputs(Inputs::new().insert(Input::u64("level", 12345678901))).serialize_data();
    let sender = RequestSender::new("http://board", "main", DeviceEnvironment::Esp32, route);
    let data = sender.create_request(&Parameters::new()).unwrap();
    assert_eq!(data.request, "http://board/main/on");
    assert_eq!(data.parameters, vec![("level".to_string(), "12345678901".to_string())]);
}

#[test]
fn later_parameter_value_replaces_earlier() {
    let parameters = Parameters::new().u64("level", 1).bool("on", true).u64("level", 7);
    assert_eq!(parameters.len(), 2);
    assert_eq!(parameters.at(0).name, "level");
    assert_eq!(parameters.get("level"), Some(ascot::controller::parameters::ParameterValue::U64(7)));
    assert_eq!(parameters.get("missing"), None);
}
