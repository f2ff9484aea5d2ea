use ascot::controller::device::{Device, Devices};
use ascot::controller::discovery::Discovery;
use ascot::controller::error::ErrorKind;
use ascot::controller::parameters::Parameters;
use ascot::controller::policy::Policy;
use ascot::controller::Controller;
use ascot::device::DeviceEnvironment;
use ascot::hazards::{Hazard, Hazards};
use ascot::input::{Input, Inputs};
use ascot::stack::Route;

fn configure_discovery() -> Discovery {
    Discovery::new("light").timeout(1000)
}

fn light_device() -> Device {
    let routes = vec![
        Route::put("/on")
            .with_inputs(Inputs::new().insert(Input::u64("brightness", 0)))
            .with_hazards(Hazards::new().insert(Hazard::FireHazard))
            .serialize_data(),
        Route::put("/off").serialize_data(),
        Route::get("/toggle")
            .with_hazards(Hazards::new().insert(Hazard::ElectricEnergyConsumption))
            .serialize_data(),
    ];
    Device::new("http://ascot.local:3000", "/light", DeviceEnvironment::Os, routes)
}

fn controller_with_light(policy: Policy) -> Controller {
    let mut devices = Devices::new();
    devices.add(light_device());
    Controller::from_devices(configure_discovery(), devices).policy(policy)
}

#[test]
fn empty_controller() {
    let controller = Controller::new(configure_discovery());

    assert_eq!(controller.discovery().domain, "light");
    assert_eq!(controller.discovery().timeout_millis, 1000);
    assert!(controller.devices().is_empty());

    // No devices.
    let error = controller.device(0).unwrap_err();
    assert_eq!(error.kind, ErrorKind::Sender);
    assert_eq!(error.info, "No devices found.");
}

#[test]
fn wrong_device_and_wrong_route() {
    let controller = controller_with_light(Policy::init());

    let error = controller.device(1).unwrap_err();
    assert_eq!(error.kind, ErrorKind::Sender);
    assert_eq!(error.info, "Error in retrieving the device with identifier 1.");

    let device_sender = controller.device(0).unwrap();
    let error = device_sender.request("/wrong").unwrap_err();
    assert_eq!(error.kind, ErrorKind::Sender);
    assert_eq!(error.info, "Error in retrieving the request with route `/wrong`.");
}

#[test]
fn requests_are_sent_without_policy() {
    let controller = controller_with_light(Policy::init());
    let device_sender = controller.device(0).unwrap();
    for route in ["/on", "/off", "/toggle"] {
        let sender = device_sender.request(route).unwrap();
        assert!(!sender.skip());
        assert!(sender.prepare(None).is_some());
    }
    let on = device_sender.request("/on").unwrap();
    assert_eq!(on.request().route(), "http://ascot.local:3000/light/on");
    let data = on.prepare(Some(&Parameters::new().u64("brightness", 5))).unwrap().unwrap();
    assert_eq!(data.request, "http://ascot.local:3000/light/on");
    assert_eq!(data.parameters, vec![("brightness".to_string(), "5".to_string())]);
}

#[test]
fn global_policy_skips_requests_with_blocked_hazards() {
    let policy = Policy::init().block_hazards(Hazards::new().insert(Hazard::FireHazard));
    let controller = controller_with_light(policy);
    let device_sender = controller.device(0).unwrap();
    let on = device_sender.request("/on").unwrap();
    assert!(on.skip());
    assert!(on.prepare(None).is_none());
    assert!(!device_sender.request("/off").unwrap().skip());
    assert!(!device_sender.request("/toggle").unwrap().skip());
}

#[test]
fn local_policy_skips_only_on_its_device() {
    let policy = Policy::init()
        .block_device_on_hazards(0, Hazards::new().insert(Hazard::ElectricEnergyConsumption))
        .block_device_on_hazards(1, Hazards::new().insert(Hazard::FireHazard));
    let controller = controller_with_light(policy);
    let device_sender = controller.device(0).unwrap();
    assert!(device_sender.request("/toggle").unwrap().skip());
    assert!(!device_sender.request("/on").unwrap().skip());
    assert!(!device_sender.request("/off").unwrap().skip());
}

#[test]
fn changed_policy_is_used() {
    let mut controller = controller_with_light(Policy::init());
    assert!(!controller.device(0).unwrap().request("/on").unwrap().skip());
    controller.change_policy(Policy::init().block_hazards(Hazards::new().insert(Hazard::FireHazard)));
    assert!(controller.device(0).unwrap().request("/on").unwrap().skip());
}

#[test]
fn parameters_of_a_request_without_inputs_are_ignored() {
    let controller = controller_with_light(Policy::init());
    let device_sender = controller.device(0).unwrap();
    let off = device_sender.request("/off").unwrap();
    let data = off.prepare(Some(&Parameters::new().u64("wrong", 1))).unwrap().unwrap();
    assert_eq!(data.request, "http://ascot.local:3000/light/off");
    assert!(data.parameters.is_empty());
}

#[test]
fn wrong_parameters_are_reported() {
    let controller = controller_with_light(Policy::init());
    let device_sender = controller.device(0).unwrap();
    let on = device_sender.request("/on").unwrap();
    let error = on.prepare(Some(&Parameters::new().bool("brightness", true))).unwrap().unwrap_err();
    assert_eq!(error.kind, ErrorKind::WrongParameter);
    assert_eq!(error.info, "`brightness` must be of type `u64`");
}

#[test]
fn later_route_configuration_replaces_earlier() {
    let routes = vec![Route::put("/on").serialize_data(), Route::get("/on").serialize_data()];
    let device = Device::new("http://a", "main", DeviceEnvironment::Os, routes);
    assert_eq!(device.request("/on").unwrap().kind(), ascot::route::RestKind::Get);
    assert!(device.request("/off").is_none());
}
