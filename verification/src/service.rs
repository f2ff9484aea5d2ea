use vstd::prelude::*;

use crate::named::NamedMap;
use crate::text::str_eq;

verus! {

/// The port a server listens on unless another one is set.
pub const DEFAULT_SERVER_PORT: u16 = 3000;

/// The service type, part of the `mDNS` domain of a device.
pub const SERVICE_TYPE: &'static str = "_ascot";

/// The `mDNS` type of a device.
pub const DNS_TYPE: &'static str = "Ascot Device";

/// An IP address.
#[derive(Debug, Clone, Copy, PartialEq, Eq, Structural)]
pub enum IpAddress {
    /// An IPv4 address, by octets.
    V4(u8, u8, u8, u8),
    /// An IPv6 address, by segments.
    V6(u16, u16, u16, u16, u16, u16, u16, u16),
}

/// A network interface of the machine a device runs on.
#[derive(Debug, Clone, Copy, PartialEq, Eq, Structural)]
pub struct Interface {
    /// The address of the interface.
    pub ip: IpAddress,
    /// Whether the interface is a loopback one.
    pub loopback: bool,
}

/// Whether a service listens on an interface: an IPv4 one, loopback
/// interfaces included, so that processes on the same machine can reach it.
pub open spec fn listens_on(i: Interface) -> bool {
    i.ip is V4
}

/// The addresses of the interfaces a service listens on, in order.
pub open spec fn listening_addresses(s: Seq<Interface>) -> Seq<IpAddress>
    decreases s.len(),
{
    if s.len() == 0 {
        Seq::empty()
    } else {
        let prefix = listening_addresses(s.drop_last());
        if listens_on(s.last()) { prefix.push(s.last().ip) } else { prefix }
    }
}

/// The host name of a service: the given one, with the `.local` domain
/// appended unless it already ends with it.
pub open spec fn local_hostname(h: Seq<char>) -> Seq<char> {
    if h.len() >= 6 && h.subrange(h.len() - 6, h.len() as int) == ".local"@ {
        h
    } else {
        h + ".local"@
    }
}

/// The `mDNS` domain of the services of devices.
pub open spec fn service_domain_text() -> Seq<char> {
    SERVICE_TYPE@ + "._tcp.local."@
}

/// Returns the host name of a service for the machine named `hostname`:
/// the `.local` domain is appended unless the name already ends with it.
pub fn hostname_with_local_domain(hostname: &str) -> (r: String)
    ensures
        r@ == local_hostname(hostname@),
{
    let suffix = ".local";
    proof {
        reveal_strlit(".local");
    }
    let len = hostname.unicode_len();
    let mut r = String::from_str(hostname);
    if len >= 6 && str_eq(hostname.substring_char(len - 6, len), suffix) {
        r
    } else {
        r.append(suffix);
        r
    }
}

/// Returns the addresses of the interfaces a service listens on: the IPv4
/// ones, in order. Loopback interfaces are not excluded, so that processes
/// on the same machine can communicate.
pub fn listening_ips(interfaces: &[Interface]) -> (r: Vec<IpAddress>)
    ensures
        r@ == listening_addresses(interfaces@),
{
    let mut r: Vec<IpAddress> = Vec::new();
    let mut i: usize = 0;
    assert(interfaces@.take(0) == Seq::<Interface>::empty());
    while i < interfaces.len()
        invariant
            0 <= i <= interfaces@.len(),
            r@ == listening_addresses(interfaces@.take(i as int)),
        decreases interfaces@.len() - i,
    {
        let iface = interfaces[i];
        assert(interfaces@.take(i + 1).drop_last() == interfaces@.take(i as int));
        match iface.ip {
            IpAddress::V4(..) => r.push(iface.ip),
            IpAddress::V6(..) => {},
        }
        i = i + 1;
    }
    assert(interfaces@.take(interfaces@.len() as int) == interfaces@);
    r
}

/// Returns the `mDNS` domain of the services of devices.
pub fn service_domain() -> (r: String)
    ensures
        r@ == service_domain_text(),
{
    let mut r = String::from_str(SERVICE_TYPE);
    r.append("._tcp.local.");
    r
}

/// What is needed to register a service in the local network.
#[derive(Debug)]
pub struct ServiceRegistration {
    /// The `mDNS` domain.
    pub domain: String,
    /// The instance name.
    pub name: &'static str,
    /// The host name.
    pub hostname: String,
    /// The addresses the service can be reached at.
    pub ips: Vec<IpAddress>,
    /// The port the service listens on.
    pub port: u16,
}

/// The abstract state of a [`ServiceBuilder`].
pub struct ServiceBuilderView {
    /// Instance name.
    pub name: Seq<char>,
    /// Service port.
    pub port: u16,
    /// Service properties.
    pub properties: Map<Seq<char>, Seq<char>>,
}

/// A `mDNS` service builder.
#[derive(Debug)]
pub struct ServiceBuilder {
    // Instance name.
    name: &'static str,
    // Service port.
    port: u16,
    // Service properties.
    properties: NamedMap<String>,
}

impl View for ServiceBuilder {
    type V = ServiceBuilderView;

    closed spec fn view(&self) -> ServiceBuilderView {
        ServiceBuilderView { name: self.name@, port: self.port, properties: self.properties@ }
    }
}

impl ServiceBuilder {
    /// Creates a new [`ServiceBuilder`] instance.
    pub fn new(name: &'static str) -> (r: Self)
        ensures
            r@.name == name@,
            r@.port == DEFAULT_SERVER_PORT,
            r@.properties == Map::<Seq<char>, Seq<char>>::empty(),
    {
        ServiceBuilder { name, port: DEFAULT_SERVER_PORT, properties: NamedMap::new() }
    }

    /// Sets a service port.
    ///
    /// It must be the same of the server.
    pub fn port(self, port: u16) -> (r: Self)
        ensures
            r@ == (ServiceBuilderView { port, ..self@ }),
    {
        let mut r = self;
        r.port = port;
        r
    }

    /// Sets a service property, replacing the value it had.
    pub fn property(self, property: (&str, &str)) -> (r: Self)
        ensures
            r@ == (ServiceBuilderView {
                properties: self@.properties.insert(property.0@, property.1@),
                ..self@
            }),
    {
        let mut r = self;
        r.properties.insert(String::from_str(property.0), String::from_str(property.1));
        r
    }

    /// Returns the service port.
    pub fn get_port(&self) -> (r: u16)
        ensures
            r == self@.port,
    {
        self.port
    }

    /// Returns the instance name.
    pub fn get_name(&self) -> (r: &'static str)
        ensures
            r@ == self@.name,
    {
        self.name
    }

    /// Returns the service properties.
    pub fn properties(&self) -> (r: &NamedMap<String>)
        ensures
            r@ == self@.properties,
    {
        &self.properties
    }

    /// Builds the service for the machine named `hostname` with the given
    /// network interfaces: records the `mDNS` type of the device among the
    /// properties and returns what is needed to register the service.
    pub fn build(&mut self, hostname: &str, interfaces: &[Interface]) -> (r: ServiceRegistration)
        ensures
            final(self)@ == (ServiceBuilderView {
                properties: old(self)@.properties.insert("type"@, DNS_TYPE@),
                ..old(self)@
            }),
            r.domain@ == service_domain_text(),
            r.name@ == old(self)@.name,
            r.hostname@ == local_hostname(hostname@),
            r.ips@ == listening_addresses(interfaces@),
            r.port == old(self)@.port,
    {
        let hostname = hostname_with_local_domain(hostname);
        let ips = listening_ips(interfaces);
        self.properties.insert(String::from_str("type"), String::from_str(DNS_TYPE));
        ServiceRegistration {
            domain: service_domain(),
            name: self.name,
            hostname,
            ips,
            port: self.port,
        }
    }
}

}
