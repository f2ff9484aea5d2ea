use ascot::action::{Action, RestKind, Task, TaskError};
use ascot::device::{Device, DeviceKind, Light};
use ascot::device_actions::{Device as ServedDevice, EmptyAction, SerialAction};
use ascot::esp::{no_hazards, Device as BoardDevice, MAXIMUM_ELEMENTS};
use ascot::hazards::Hazard;
use ascot::input::Input;
use ascot::route::Route;
use ascot::server::AscotServer;
use ascot::service::{IpAddress, ServiceBuilder, DEFAULT_SERVER_PORT};

struct Named(&'static str);

impl Task for Named {
    fn task(&self) -> Result<(), TaskError> {
        if self.0 == "fail" {
            Err(TaskError::new("failed"))
        } else {
            Ok(())
        }
    }
}

#[test]
fn light_builds_a_device_with_unique_actions() {
    let on = Action::put("on", Named("on")).description("Turn light on.");
    let off = Action::put("off", Named("off")).description("Turn light off.");
    let toggle = Action::put("toggle", Named("toggle")).description("Toggle a light.");
    let again = Action::put("on", Named("again"));
    let device = Light::new(on, off).add_action(toggle).add_action(again).build();
    assert_eq!(device.kind(), DeviceKind::Light);
    assert_eq!(device.get_main_route(), "/light");
    let actions = device.actions();
    assert_eq!(actions.len(), 3);
    assert_eq!(actions[0].route, "on");
    assert_eq!(actions[0].task.0, "on");
    assert_eq!(actions[1].route, "off");
    assert_eq!(actions[2].route, "toggle");
    assert_eq!(device.action_route(2), "/light/toggle");
}

#[test]
fn same_route_with_other_kind_is_another_action() {
    let device = Device::new(DeviceKind::Light)
        .main_route("/lamp")
        .add_action(Action::get("state", Named("a")))
        .add_action(Action::post("state", Named("b")))
        .add_action(Action::get("state", Named("c")));
    assert_eq!(device.actions().len(), 2);
    assert_eq!(device.actions()[1].rest_kind, RestKind::Post);
    assert_eq!(device.action_route(0), "/lamp/state");
    assert!(device.actions()[0].run().is_ok());
    let failing = Action::get("x", Named("fail"));
    assert_eq!(failing.run().unwrap_err().response_body(), "Error: failed");
}

#[test]
fn server_defaults_and_service_port() {
    let device = Device::<Named>::new(DeviceKind::Light);
    let server = AscotServer::new(device);
    assert_eq!(server.get_port(), DEFAULT_SERVER_PORT);
    assert_eq!(server.get_http_address(), IpAddress::V4(0, 0, 0, 0));
    assert_eq!(server.get_well_known_uri(), "/.well-known/ascot");

    let mut server = server.port(4000).service(ServiceBuilder::new("lamp").port(5000));
    let service = server.service_to_build();
    assert_eq!(service.get_name(), "lamp");
    assert_eq!(service.get_port(), 4000);

    // Without a service, the default one is built.
    let service = server.service_to_build();
    assert_eq!(service.get_name(), "Server");
    assert_eq!(service.get_port(), 4000);
    assert_eq!(service.properties().get("scheme").unwrap(), "http");
    assert_eq!(service.properties().get("path").unwrap(), "/.well-known/ascot");
}

#[test]
fn service_with_the_server_port_is_set() {
    let device = Device::<Named>::new(DeviceKind::Light);
    let mut server = AscotServer::new(device).service(ServiceBuilder::new("lamp").port(DEFAULT_SERVER_PORT));
    let service = server.service_to_build();
    assert_eq!(service.get_name(), "lamp");
    assert_eq!(service.get_port(), DEFAULT_SERVER_PORT);
}

#[test]
fn served_device_actions() {
    let route = Route::get("/light").input(Input::bool("on", true));
    let action = EmptyAction::with_hazards(route, &[Hazard::FireHazard, Hazard::Explosion]);
    assert!(!action.miss_hazard(Hazard::FireHazard));
    assert!(action.miss_hazard(Hazard::SpoiledFood));
    assert!(!action.miss_hazards(&[Hazard::FireHazard, Hazard::Explosion]));
    assert!(action.miss_hazards(&[Hazard::FireHazard, Hazard::AirPoisoning]));
    let action = action.device_action();
    assert_eq!(action.route.route(), "/light/:on");

    let serial = SerialAction::with_hazard(Route::put("/p"), Hazard::SpoiledFood);
    assert!(!serial.miss_hazard(Hazard::SpoiledFood));
    let plain = SerialAction::no_hazards(Route::post("/q"));
    assert!(plain.miss_hazards(&[Hazard::SpoiledFood]));
    assert!(!plain.miss_hazards(&[]));

    let device = ServedDevice::<u8>::unknown()
        .main_route("/camera")
        .state(7)
        .add_action(action)
        .add_action(serial.device_action());
    let device = device.add_action(EmptyAction::no_hazards(Route::put("/p")).device_action());
    let data = device.serialize_data();
    assert_eq!(data.main_route, "/camera");
    assert_eq!(data.route_configs.len(), 2);
    assert_eq!(data.route_configs[0].data.name, "/light/:on");
    assert_eq!(data.route_configs[1].data.name, "/p");
    assert_eq!(data.route_configs[1].hazards.len(), 1);
}

#[test]
fn board_device_keeps_at_most_the_maximum_actions() {
    let mut device = BoardDevice::new(DeviceKind::Light).main_route("/board");
    for _ in 0..20 {
        device = device.add_action(no_hazards(Route::get("/a")));
    }
    assert_eq!(device.len(), MAXIMUM_ELEMENTS);
    let data = device.serialize_data();
    assert_eq!(data.main_route, "/board");
    // The same route is described once.
    assert_eq!(data.route_configs.len(), 1);
    assert_eq!(data.route_configs[0].data.name, "/a");

    let routes: [&'static str; 3] = ["/x", "/y", "/z"];
    let mut device = BoardDevice::new(DeviceKind::Light);
    for route in routes {
        device = device.add_action(no_hazards(Route::get(route)));
        device = device.add_action(no_hazards(Route::post(route)));
    }
    let data = device.serialize_data();
    assert_eq!(data.route_configs.len(), 6);
    assert_eq!(data.route_configs[1].data.name, "/x");
    assert_eq!(data.route_configs[1].rest_kind, ascot::route::RestKind::Post);
}
