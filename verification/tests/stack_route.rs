use ascot::hazards::{Hazard, Hazards};
use ascot::input::{Input, InputStructure, Inputs};
use ascot::response::ResponseKind;
use ascot::route::RestKind;
use ascot::stack::{Route, RouteConfig};

fn check_plain(config: &RouteConfig, description: &str, kind: RestKind) {
    assert_eq!(config.data.name, "/route");
    assert_eq!(config.data.description.as_deref(), Some(description));
    assert_eq!(config.rest_kind, kind);
    assert_eq!(config.response_kind, ResponseKind::Success);
}

fn check_hazards(config: &RouteConfig) {
    let h = &config.data.hazards;
    assert_eq!(h.len(), 3);
    assert_eq!(h.get(0), Hazard::FireHazard);
    assert_eq!(h.get(1), Hazard::AirPoisoning);
    assert_eq!(h.get(2), Hazard::Explosion);
}

fn check_inputs(config: &RouteConfig) {
    let inputs = &config.data.inputs;
    assert_eq!(inputs.len(), 3);
    assert_eq!(inputs.get(0).name, "rangeu64");
    assert_eq!(inputs.get(0).structure, InputStructure::RangeU64 { min: 0, max: 20, step: 1, default: 5 });
    assert_eq!(inputs.get(1).name, "u64");
    assert_eq!(inputs.get(1).structure, InputStructure::U64 { default: 0 });
    assert_eq!(inputs.get(2).name, "bool");
    assert_eq!(inputs.get(2).structure, InputStructure::Bool { default: true });
}

fn all_hazards() -> Hazards {
    Hazards::new().insert(Hazard::FireHazard).insert(Hazard::AirPoisoning).insert(Hazard::Explosion)
}

fn all_inputs() -> Inputs {
    Inputs::new()
        .insert(Input::rangeu64_with_default("rangeu64", (0, 20, 1), 5))
        .insert(Input::u64("u64", 0))
        .insert(Input::bool("bool", true))
}

#[test]
fn test_all_routes() {
    let config = Route::get("/route").description("A GET route").serialize_data();
    check_plain(&config, "A GET route", RestKind::Get);
    assert!(config.data.hazards.is_empty());
    assert!(config.data.inputs.is_empty());

    let config = Route::put("/route").description("A PUT route").serialize_data();
    check_plain(&config, "A PUT route", RestKind::Put);

    let config = Route::post("/route").description("A POST route").serialize_data();
    check_plain(&config, "A POST route", RestKind::Post);

    let config = Route::delete("/route").description("A DELETE route").serialize_data();
    check_plain(&config, "A DELETE route", RestKind::Delete);
}

#[test]
fn test_all_hazards() {
    let config = Route::get("/route").description("A GET route").with_hazards(all_hazards()).serialize_data();
    check_plain(&config, "A GET route", RestKind::Get);
    check_hazards(&config);
    assert!(config.data.inputs.is_empty());
}

#[test]
fn test_all_inputs() {
    let config = Route::get("/route").description("A GET route").with_inputs(all_inputs()).serialize_data();
    check_plain(&config, "A GET route", RestKind::Get);
    check_inputs(&config);
    assert!(config.data.hazards.is_empty());
}

#[test]
fn test_complete_route() {
    let config = Route::get("/route")
        .description("A GET route")
        .with_hazards(all_hazards())
        .with_inputs(all_inputs())
        .serialize_data();
    check_plain(&config, "A GET route", RestKind::Get);
    check_hazards(&config);
    check_inputs(&config);
}

#[test]
fn route_builders() {
    let route = Route::post("/a").change_route("/b").description("d");
    assert_eq!(route.route(), "/b");
    assert_eq!(route.kind(), RestKind::Post);
    assert!(route.same_route(&Route::post("/b")));
    assert!(!route.same_route(&Route::get("/b")));
    let first = Route::get("/x").serialize_data();
    let second = Route::get("/x").description("other").serialize_data();
    assert!(first.same_route(&second));
}
