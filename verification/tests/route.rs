use ascot::hazards::{Hazard, Hazards};
use ascot::input::Input;
use ascot::route::{RestKind, Route, RouteHazards, RouteMode};
use ascot::strings::MAXIMUM_STRING_SIZE;

#[test]
fn get_route_joins_its_inputs() {
    let mut route = Route::get("/light")
        .input(Input::bool("on", true))
        .input(Input::u64("brightness", 3));
    route.join_inputs(RouteMode::Linear, Some(":"));
    assert_eq!(route.route(), "/light/:on/:brightness");
    // A second join changes nothing.
    route.join_inputs(RouteMode::Linear, None);
    assert_eq!(route.route(), "/light/:on/:brightness");
}

#[test]
fn join_without_symbol() {
    let mut route = Route::get("/light").inputs(vec![Input::bool("a", true), Input::bool("b", false)]);
    route.join_inputs(RouteMode::Linear, None);
    assert_eq!(route.route(), "/light/a/b");
}

#[test]
fn other_routes_are_not_joined() {
    let mut route = Route::put("/light").input(Input::bool("on", true));
    route.join_inputs(RouteMode::Linear, Some(":"));
    assert_eq!(route.route(), "/light");
    assert_eq!(route.kind(), RestKind::Put);
}

#[test]
fn route_without_inputs_is_unchanged() {
    let mut route = Route::get("/light");
    route.join_inputs(RouteMode::Linear, Some(":"));
    assert_eq!(route.route(), "/light");
}

#[test]
fn too_long_joined_route_is_not_joined() {
    let long = "x".repeat(MAXIMUM_STRING_SIZE);
    let mut route = Route::get("/r").input(Input::bool(&long, true));
    route.join_inputs(RouteMode::Linear, None);
    assert_eq!(route.route(), "/r");
}

#[test]
fn inputs_keep_the_first_of_a_name_and_at_most_the_maximum() {
    let route = Route::get("/r").input(Input::bool("a", true)).input(Input::u64("a", 1));
    assert_eq!(route.get_inputs().len(), 1);
    let many: Vec<Input> = (0..20).map(|i| Input::bool(&format!("i{i}"), true)).collect();
    let route = Route::get("/r").inputs(many);
    assert_eq!(route.get_inputs().len(), 16);
}

#[test]
fn route_hazards_serialize_data() {
    let route = Route::get("/light").description("A light.").stateless();
    let rh = RouteHazards::with_hazards(route, &[Hazard::FireHazard, Hazard::Explosion, Hazard::FireHazard]);
    let config = rh.serialize_data();
    assert_eq!(config.data.name, "/light");
    assert_eq!(config.data.description, Some("A light."));
    assert!(config.data.stateless);
    assert_eq!(config.rest_kind, RestKind::Get);
    assert_eq!(config.hazards.len(), 2);
    assert_eq!(config.hazards.get(0), Hazard::FireHazard);
    assert_eq!(config.hazards.get(1), Hazard::Explosion);
    assert!(config.same_route(&RouteHazards::no_hazards(Route::get("/light")).serialize_data()));
    assert!(!config.same_route(&RouteHazards::no_hazards(Route::post("/light")).serialize_data()));
}

#[test]
fn single_hazard_route() {
    let rh = RouteHazards::single_hazard(Route::post("/p"), Hazard::SpoiledFood);
    assert_eq!(rh.hazards.len(), 1);
    assert!(rh.hazards.contains(Hazard::SpoiledFood));
    assert!(!rh.hazards.contains(Hazard::FireHazard));
}

#[test]
fn rest_kind_names() {
    assert_eq!(RestKind::Get.as_str(), "GET");
    assert_eq!(RestKind::Put.as_str(), "PUT");
    assert_eq!(RestKind::Post.as_str(), "POST");
    assert_eq!(RestKind::Delete.as_str(), "DELETE");
}

#[test]
fn hazards_insert_once_in_order() {
    let h = Hazards::new().insert(Hazard::Explosion).insert(Hazard::AirPoisoning).insert(Hazard::Explosion);
    assert_eq!(h.len(), 2);
    assert_eq!(h.get(0), Hazard::Explosion);
    assert_eq!(h.get(1), Hazard::AirPoisoning);
    let other = Hazards::new().insert(Hazard::AirPoisoning).insert(Hazard::FireHazard);
    let common = h.intersection(&other);
    assert_eq!(common.len(), 1);
    assert_eq!(common.get(0), Hazard::AirPoisoning);
}
