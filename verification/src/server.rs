use vstd::prelude::*;

use crate::device::{Device, DeviceView};
use crate::service::{IpAddress, ServiceBuilder, ServiceBuilderView, DEFAULT_SERVER_PORT};

verus! {

/// The default HTTP address: the unspecified IPv4 address, so that the
/// whole local network is considered.
pub open spec fn default_http_address() -> IpAddress {
    IpAddress::V4(0, 0, 0, 0)
}

/// The default scheme.
pub const DEFAULT_SCHEME: &'static str = "http";

/// The well-known URI.
///
/// Requests to the server for well-known services or information are
/// available at URLs consistent well-known locations across servers.
pub const WELL_KNOWN_URI: &'static str = "/.well-known/ascot";

/// The name of the service a server registers when none is set.
pub const DEFAULT_SERVICE_NAME: &'static str = "Server";

/// The abstract state of an [`AscotServer`].
pub struct AscotServerView<T> {
    /// HTTP address.
    pub http_address: IpAddress,
    /// Server port.
    pub port: u16,
    /// Scheme.
    pub scheme: Seq<char>,
    /// Well-known URI.
    pub well_known_uri: Seq<char>,
    /// An external service.
    pub service: Option<ServiceBuilderView>,
    /// The device.
    pub device: DeviceView<T>,
}

/// The `Ascot` server.
///
/// Only a single device per server.
#[derive(Debug)]
pub struct AscotServer<T> {
    http_address: IpAddress,
    port: u16,
    scheme: &'static str,
    well_known_uri: &'static str,
    service: Option<ServiceBuilder>,
    device: Device<T>,
}

/// The view of an optional service.
pub open spec fn service_view(s: Option<ServiceBuilder>) -> Option<ServiceBuilderView> {
    match s {
        Some(b) => Some(b@),
        None => None,
    }
}

impl<T> View for AscotServer<T> {
    type V = AscotServerView<T>;

    closed spec fn view(&self) -> AscotServerView<T> {
        AscotServerView {
            http_address: self.http_address,
            port: self.port,
            scheme: self.scheme@,
            well_known_uri: self.well_known_uri@,
            service: service_view(self.service),
            device: self.device@,
        }
    }
}

/// The service a server registers when none is set: one named
/// [`DEFAULT_SERVICE_NAME`] on the port of the server, whose properties are
/// the scheme and the well-known URI of the server.
pub open spec fn default_service<T>(v: AscotServerView<T>) -> ServiceBuilderView {
    ServiceBuilderView {
        name: DEFAULT_SERVICE_NAME@,
        port: v.port,
        properties: Map::<Seq<char>, Seq<char>>::empty().insert("scheme"@, v.scheme).insert(
            "path"@,
            v.well_known_uri,
        ),
    }
}

impl<T> AscotServer<T> {
    /// Creates a new `Ascot` server instance.
    pub fn new(device: Device<T>) -> (r: Self)
        ensures
            r@.http_address == default_http_address(),
            r@.port == DEFAULT_SERVER_PORT,
            r@.scheme == DEFAULT_SCHEME@,
            r@.well_known_uri == WELL_KNOWN_URI@,
            r@.service is None,
            r@.device == device@,
    {
        AscotServer {
            http_address: IpAddress::V4(0, 0, 0, 0),
            port: DEFAULT_SERVER_PORT,
            scheme: DEFAULT_SCHEME,
            well_known_uri: WELL_KNOWN_URI,
            service: None,
            device,
        }
    }

    /// Sets a new HTTP address.
    pub fn http_address(self, http_address: IpAddress) -> (r: Self)
        ensures
            r@ == (AscotServerView { http_address, ..self@ }),
    {
        AscotServer { http_address, ..self }
    }

    /// Sets server port.
    pub fn port(self, port: u16) -> (r: Self)
        ensures
            r@ == (AscotServerView { port, ..self@ }),
    {
        AscotServer { port, ..self }
    }

    /// Sets server scheme.
    pub fn scheme(self, scheme: &'static str) -> (r: Self)
        ensures
            r@ == (AscotServerView { scheme: scheme@, ..self@ }),
    {
        AscotServer { scheme, ..self }
    }

    /// Sets well-known URI.
    pub fn well_known_uri(self, well_known_uri: &'static str) -> (r: Self)
        ensures
            r@ == (AscotServerView { well_known_uri: well_known_uri@, ..self@ }),
    {
        AscotServer { well_known_uri, ..self }
    }

    /// Sets a new service.
    ///
    /// The service port is automatically set to the same in use on the
    /// server.
    pub fn service(self, service: ServiceBuilder) -> (r: Self)
        ensures
            r@ == (AscotServerView {
                service: Some(ServiceBuilderView { port: self@.port, ..service@ }),
                ..self@
            }),
    {
        let port = self.port;
        AscotServer { service: Some(service.port(port)), ..self }
    }

    /// Returns the service to register when the server runs: the service
    /// that was set, taken out of the server, or else the default one.
    pub fn service_to_build(&mut self) -> (r: ServiceBuilder)
        ensures
            old(self)@.service matches Some(s) ==> r@ == s,
            old(self)@.service is None ==> r@ == default_service(old(self)@),
            final(self)@ == (AscotServerView { service: None, ..old(self)@ }),
    {
        match self.service.take() {
            Some(s) => s,
            None => ServiceBuilder::new(DEFAULT_SERVICE_NAME)
                .port(self.port)
                .property(("scheme", self.scheme))
                .property(("path", self.well_known_uri)),
        }
    }

    /// Returns the HTTP address.
    pub fn get_http_address(&self) -> (r: IpAddress)
        ensures
            r == self@.http_address,
    {
        self.http_address
    }

    /// Returns the port.
    pub fn get_port(&self) -> (r: u16)
        ensures
            r == self@.port,
    {
        self.port
    }

    /// Returns the well-known URI.
    pub fn get_well_known_uri(&self) -> (r: &'static str)
        ensures
            r@ == self@.well_known_uri,
    {
        self.well_known_uri
    }

    /// Returns the device.
    pub fn device(&self) -> (r: &Device<T>)
        ensures
            r@ == self@.device,
    {
        &self.device
    }
}

}
