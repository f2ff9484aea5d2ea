use ascot::actions::{ActionError, ActionErrorKind};
use ascot::camera::{change_camera, startup_error, startup_with_error, CameraIndex};
use ascot::error::{Error, ErrorKind};
use ascot::service::{hostname_with_local_domain, listening_ips, service_domain, Interface, IpAddress, ServiceBuilder};
use ascot::strings::{MiniString, MAXIMUM_STRING_SIZE};
use ascot::text::{str_eq, u64_to_string};

#[test]
fn decimal_text() {
    assert_eq!(u64_to_string(0), "0");
    assert_eq!(u64_to_string(7), "7");
    assert_eq!(u64_to_string(10), "10");
    assert_eq!(u64_to_string(1234567890), "1234567890");
    assert_eq!(u64_to_string(u64::MAX), "18446744073709551615");
    assert!(str_eq("abc", "abc"));
    assert!(!str_eq("abc", "abd"));
}

#[test]
fn error_format() {
    let error = Error::new(ErrorKind::Serialization, "bad json");
    assert_eq!(error.format(), "Error kind: Serialization\nCause: bad json");
    let external = Error::external("x");
    assert_eq!(external.get_kind(), ErrorKind::External);
    assert_eq!(external.get_info(), "x");
    assert_eq!(ErrorKind::NotFoundAddress.description(), "Not Found Address");
    assert_eq!(ErrorKind::AscotLibrary.to_text(), "Error kind: Ascot Library");
}

#[test]
fn action_errors() {
    let e = ActionError::invalid_data("bad").info("more");
    assert_eq!(e.kind, ActionErrorKind::InvalidData);
    assert_eq!(e.description, "bad");
    assert_eq!(e.info, Some("more"));
    let e = ActionError::internal("oops");
    assert_eq!(e.kind, ActionErrorKind::Internal);
    assert_eq!(e.info, None);
}

#[test]
fn camera_change() {
    let available = vec![CameraIndex::Index(0), CameraIndex::Index(2), CameraIndex::String("usb".to_string())];
    let (index, message) = change_camera(&CameraIndex::Index(0), CameraIndex::Index(0), &available);
    assert!(index.same(&CameraIndex::Index(0)));
    assert_eq!(message, "Camera index remained unchanged at 0");
    let (index, message) = change_camera(&CameraIndex::Index(0), CameraIndex::String("usb".to_string()), &available);
    assert!(index.same(&CameraIndex::String("usb".to_string())));
    assert_eq!(message, "Camera changed to index usb");
    let (index, message) = change_camera(&CameraIndex::Index(0), CameraIndex::Index(5), &available);
    assert!(index.same(&CameraIndex::Index(0)));
    assert_eq!(message, "Camera changed to index 0");
}

#[test]
fn startup_errors() {
    let e = startup_error("No camera backend found");
    assert_eq!(e.get_kind(), ErrorKind::External);
    assert_eq!(e.get_info(), "No camera backend found at server startup");
    let e = startup_with_error("The backend cannot find any camera", "denied");
    assert_eq!(
        e.get_info(),
        "\n            The backend cannot find any camera at server startup\n            Info: denied\n        "
    );
}

#[test]
fn service_registration() {
    assert_eq!(hostname_with_local_domain("ascot"), "ascot.local");
    assert_eq!(hostname_with_local_domain("ascot.local"), "ascot.local");
    assert_eq!(hostname_with_local_domain("local"), "local.local");
    assert_eq!(service_domain(), "_ascot._tcp.local.");
    let interfaces = [
        Interface { ip: IpAddress::V4(127, 0, 0, 1), loopback: true },
        Interface { ip: IpAddress::V4(192, 168, 1, 2), loopback: false },
        Interface { ip: IpAddress::V6(0, 0, 0, 0, 0, 0, 0, 1), loopback: false },
    ];
    assert_eq!(listening_ips(&interfaces), vec![IpAddress::V4(127, 0, 0, 1), IpAddress::V4(192, 168, 1, 2)]);

    let mut service = ServiceBuilder::new("lamp").port(8080).property(("scheme", "http")).property(("scheme", "https"));
    let registration = service.build("host", &interfaces);
    assert_eq!(registration.domain, "_ascot._tcp.local.");
    assert_eq!(registration.name, "lamp");
    assert_eq!(registration.hostname, "host.local");
    assert_eq!(registration.port, 8080);
    assert_eq!(registration.ips, vec![IpAddress::V4(127, 0, 0, 1), IpAddress::V4(192, 168, 1, 2)]);
    assert_eq!(service.properties().len(), 2);
    assert_eq!(service.properties().get("scheme").unwrap(), "https");
    assert_eq!(service.properties().get("type").unwrap(), "Ascot Device");
}

#[test]
fn mini_string_capacity() {
    let mut s = MiniString::empty();
    assert!(s.push("abc").is_ok());
    assert_eq!(s.as_str(), "abc");
    let long = "y".repeat(MAXIMUM_STRING_SIZE);
    assert!(s.push(&long).is_err());
    assert_eq!(s.as_str(), "abc");
    assert_eq!(s.len(), 3);
}
