//! What a server needs to know before it runs a device: where to listen,
//! which paths to bind to which handlers, and what to answer at the root.
//!
//! Nothing here opens a socket. A plan is computed; the server carries it
//! out.
use vstd::prelude::*;
use crate::device::action::{Action, ActionModel};
use crate::device::registry::{models, Device};
use crate::device::table::{DeviceKind, DeviceModel};
use crate::error::Error;
use crate::json::JsonValue;
use crate::route::RestKind;
use crate::text::{decimal, join, owned, spec_decimal};

verus! {

/// The port on which a server listens unless it is given another.
pub const DEFAULT_SERVER_PORT: u16 = 3000;

/// The stack size of a server on a constrained target unless it is given
/// another.
pub const DEFAULT_STACK_SIZE: usize = 10240;

/// One path to bind: the method, the full path and the handler.
#[derive(Debug)]
pub struct Registration {
    /// The method that the handler answers.
    pub method: RestKind,
    /// The prefix of the device followed by the path of the route.
    pub path: String,
    /// The identity of the handler.
    pub handler: u64,
}

/// The bindings of a list of actions under a prefix, in the order of the
/// list: method, full path and handler of each.
pub open spec fn spec_registrations(main_route: Seq<char>, actions: Seq<ActionModel>) -> Seq<
    (RestKind, Seq<char>, u64),
> {
    Seq::new(
        actions.len(),
        |i: int| (actions[i].route.kind, main_route + actions[i].route.route, actions[i].handler),
    )
}

/// The bindings by their characters.
pub open spec fn spec_bound(list: Seq<Registration>) -> Seq<(RestKind, Seq<char>, u64)> {
    Seq::new(list.len(), |i: int| (list[i].method, list[i].path@, list[i].handler))
}

/// Computes the bindings of a list of actions under a prefix.
pub fn registrations(main_route: &str, actions: &Vec<Action>) -> (r: Vec<Registration>)
    ensures
        spec_bound(r@) == spec_registrations(main_route@, models(actions@)),
{
    let mut list: Vec<Registration> = Vec::new();
    let mut i: usize = 0;
    while i < actions.len()
        invariant
            i <= actions.len(),
            spec_bound(list@) == spec_registrations(main_route@, models(actions@).take(i as int)),
        decreases actions.len() - i,
    {
        let route = actions[i].route();
        let registration = Registration {
            method: route.kind(),
            path: join(main_route, route.route()),
            handler: actions[i].handler(),
        };
        proof {
            let so_far = models(actions@).take(i as int);
            let next = models(actions@).take(i as int + 1);
            let entry = (registration.method, registration.path@, registration.handler);
            assert(spec_registrations(main_route@, next) =~= spec_registrations(
                main_route@,
                so_far,
            ).push(entry));
        }
        list.push(registration);
        i += 1;
    }
    list
}

/// What a server on a constrained target does for a device: the settings
/// with which it starts, the paths it binds, and the manifest it serves
/// under the prefix of the device.
#[derive(Debug)]
pub struct ServerPlan {
    /// The kind of the device.
    pub kind: DeviceKind,
    /// The port to listen on.
    pub port: u16,
    /// The stack size of the server task.
    pub stack_size: usize,
    /// The prefix under which the manifest is served.
    pub main_route: String,
    /// The manifest of the device.
    pub manifest: JsonValue,
    /// The paths to bind, those of actions that only report last.
    pub registrations: Vec<Registration>,
}

/// The `Ascot` server.
#[derive(Debug)]
pub struct AscotServer {
    port: u16,
    stack_size: usize,
    device: Device,
}

impl AscotServer {
    /// The port.
    pub closed spec fn spec_port(&self) -> u16 {
        self.port
    }

    /// The stack size.
    pub closed spec fn spec_stack_size(&self) -> usize {
        self.stack_size
    }

    /// The device.
    pub closed spec fn spec_device(&self) -> DeviceModel {
        self.device@
    }

    /// Creates a new [`AscotServer`] instance with the default port and
    /// stack size.
    pub fn new(device: Device) -> (r: Self)
        ensures
            r.spec_port() == DEFAULT_SERVER_PORT,
            r.spec_stack_size() == DEFAULT_STACK_SIZE,
            r.spec_device() == device@,
    {
        Self { port: DEFAULT_SERVER_PORT, stack_size: DEFAULT_STACK_SIZE, device }
    }

    /// Sets server port.
    pub fn port(self, port: u16) -> (r: Self)
        ensures
            r.spec_port() == port,
            r.spec_stack_size() == self.spec_stack_size(),
            r.spec_device() == self.spec_device(),
    {
        Self { port, stack_size: self.stack_size, device: self.device }
    }

    /// Sets server stack size.
    pub fn stack_size(self, stack_size: usize) -> (r: Self)
        ensures
            r.spec_port() == self.spec_port(),
            r.spec_stack_size() == stack_size,
            r.spec_device() == self.spec_device(),
    {
        Self { port: self.port, stack_size, device: self.device }
    }

    /// Plans the run of a device on a server with a service: finalizes the
    /// device and says what the server starts with, binds and serves. The
    /// caller starts the server after this plan, then runs the service.
    ///
    /// A device that lacks an action that its kind demands is refused.
    pub fn run_with_service(self) -> (r: Result<ServerPlan, Error>)
        ensures
            r is Ok <==> self.spec_device().complete(),
            r is Err ==> r->Err_0 == Error::IncompleteDevice,
            r is Ok ==> {
                let plan = r->Ok_0;
                &&& plan.kind == self.spec_device().kind
                &&& plan.port == self.spec_port()
                &&& plan.stack_size == self.spec_stack_size()
                &&& plan.main_route@ == self.spec_device().main_route
                &&& plan.manifest@ == self.spec_device().manifest()
                &&& spec_bound(plan.registrations@) == spec_registrations(
                    self.spec_device().main_route,
                    self.spec_device().all(),
                )
            },
    {
        match self.device.finalize() {
            Ok(finalized) => {
                let registrations = registrations(finalized.main_route.as_str(), &finalized.actions);
                Ok(
                    ServerPlan {
                        kind: finalized.kind,
                        port: self.port,
                        stack_size: self.stack_size,
                        main_route: finalized.main_route,
                        manifest: finalized.manifest,
                        registrations,
                    },
                )
            },
            Err(e) => Err(e),
        }
    }
}

/// The scheme of a server unless it is given another.
pub open spec fn spec_default_scheme() -> Seq<char> {
    "http"@
}

/// The name of the well-known service of a server unless it is given
/// another.
pub open spec fn spec_default_service() -> Seq<char> {
    "ascot"@
}

/// An address in dotted decimal notation, a colon, and a port.
pub open spec fn spec_listener_bind(address: [u8; 4], port: u16) -> Seq<char> {
    spec_decimal(address[0] as nat) + "."@ + spec_decimal(address[1] as nat) + "."@
        + spec_decimal(address[2] as nat) + "."@ + spec_decimal(address[3] as nat) + ":"@
        + spec_decimal(port as nat)
}

/// The well-known path of a service.
pub open spec fn spec_well_known_uri(service: Seq<char>) -> Seq<char> {
    "/.well-known/"@ + service
}

/// What is announced for a device: the name of the service and properties
/// that a client reads before it connects.
#[derive(Debug)]
pub struct ServiceConfig {
    /// The name under which the service is announced.
    pub instance_name: String,
    /// Properties of the service, each a name and a value.
    pub properties: Vec<(String, String)>,
}

impl ServiceConfig {
    /// The properties by their characters.
    pub open spec fn spec_properties(&self) -> Seq<(Seq<char>, Seq<char>)> {
        Seq::new(self.properties@.len(), |i: int| (self.properties@[i].0@, self.properties@[i].1@))
    }

    /// A service of this name without properties.
    pub fn mdns_sd(instance_name: &str) -> (r: Self)
        ensures
            r.instance_name@ == instance_name@,
            r.spec_properties() == Seq::<(Seq<char>, Seq<char>)>::empty(),
    {
        let r = ServiceConfig { instance_name: owned(instance_name), properties: Vec::new() };
        r
    }

    /// Adds a property at the end.
    pub fn property(self, name: &str, value: &str) -> (r: Self)
        ensures
            r.instance_name == self.instance_name,
            r.spec_properties() == self.spec_properties().push((name@, value@)),
    {
        let mut properties = self.properties;
        properties.push((owned(name), owned(value)));
        let r = ServiceConfig { instance_name: self.instance_name, properties };
        r
    }
}

/// What a server on a general target does for a device.
#[derive(Debug)]
pub struct RunPlan {
    /// The kind of the device.
    pub kind: DeviceKind,
    /// Where to listen: address, colon, port.
    pub listener_bind: String,
    /// The well-known path, which redirects to the root.
    pub well_known_uri: String,
    /// The prefix under which the routes of the device are served.
    pub main_route: String,
    /// The manifest, served at the root.
    pub manifest: JsonValue,
    /// All actions of the device, those that only report last.
    pub actions: Vec<Action>,
    /// The service to announce, if there is one, with the scheme and the
    /// well-known path among its properties.
    pub service: Option<ServiceConfig>,
}

/// A [`Device`] server.
#[derive(Debug)]
pub struct Server {
    http_address: [u8; 4],
    port: u16,
    scheme: String,
    well_known_service: String,
    service_config: Option<ServiceConfig>,
    device: Device,
}

/// The mathematical model of the settings of a server.
pub struct ServerModel {
    /// The four bytes of the address.
    pub http_address: [u8; 4],
    /// The port.
    pub port: u16,
    /// The scheme.
    pub scheme: Seq<char>,
    /// The name of the well-known service.
    pub well_known_service: Seq<char>,
    /// The name and the properties of the service to announce.
    pub service: Option<(Seq<char>, Seq<(Seq<char>, Seq<char>)>)>,
    /// The device.
    pub device: DeviceModel,
}

impl View for Server {
    type V = ServerModel;

    closed spec fn view(&self) -> ServerModel {
        ServerModel {
            http_address: self.http_address,
            port: self.port,
            scheme: self.scheme@,
            well_known_service: self.well_known_service@,
            service: match self.service_config {
                Some(config) => Some((config.instance_name@, config.spec_properties())),
                None => None,
            },
            device: self.device@,
        }
    }
}

impl ServerModel {
    /// The service as it is announced: with the scheme and the well-known
    /// path added to its properties.
    pub open spec fn announced(self) -> Option<(Seq<char>, Seq<(Seq<char>, Seq<char>)>)> {
        match self.service {
            Some((name, properties)) => Some(
                (
                    name,
                    properties.push(("scheme"@, self.scheme)).push(
                        ("path"@, spec_well_known_uri(self.well_known_service)),
                    ),
                ),
            ),
            None => None,
        }
    }
}

/// Writes an address in dotted decimal notation, a colon, and a port.
pub fn listener_bind(address: [u8; 4], port: u16) -> (r: String)
    ensures
        r@ == spec_listener_bind(address, port),
{
    let mut r = decimal(address[0] as u64);
    r.append(".");
    r.append(decimal(address[1] as u64).as_str());
    r.append(".");
    r.append(decimal(address[2] as u64).as_str());
    r.append(".");
    r.append(decimal(address[3] as u64).as_str());
    r.append(":");
    r.append(decimal(port as u64).as_str());
    r
}

impl Server {
    /// Creates a [`Server`] that listens on every address of the machine
    /// at the default port, with the scheme `http` and the well-known
    /// service `ascot`, and announces nothing.
    pub fn new(device: Device) -> (r: Self)
        ensures
            r@ == (ServerModel {
                http_address: [0u8, 0u8, 0u8, 0u8],
                port: DEFAULT_SERVER_PORT,
                scheme: spec_default_scheme(),
                well_known_service: spec_default_service(),
                service: None,
                device: device@,
            }),
    {
        Self {
            http_address: [0u8, 0u8, 0u8, 0u8],
            port: DEFAULT_SERVER_PORT,
            scheme: owned("http"),
            well_known_service: owned("ascot"),
            service_config: None,
            device,
        }
    }

    /// Sets server IPv4 address, given by its four bytes.
    pub fn address(self, http_address: [u8; 4]) -> (r: Self)
        ensures
            r@ == (ServerModel { http_address, ..self@ }),
    {
        Self {
            http_address,
            port: self.port,
            scheme: self.scheme,
            well_known_service: self.well_known_service,
            service_config: self.service_config,
            device: self.device,
        }
    }

    /// Sets server port.
    pub fn port(self, port: u16) -> (r: Self)
        ensures
            r@ == (ServerModel { port, ..self@ }),
    {
        Self {
            http_address: self.http_address,
            port,
            scheme: self.scheme,
            well_known_service: self.well_known_service,
            service_config: self.service_config,
            device: self.device,
        }
    }

    /// Sets server scheme.
    pub fn scheme(self, scheme: &str) -> (r: Self)
        ensures
            r@ == (ServerModel { scheme: scheme@, ..self@ }),
    {
        Self {
            http_address: self.http_address,
            port: self.port,
            scheme: owned(scheme),
            well_known_service: self.well_known_service,
            service_config: self.service_config,
            device: self.device,
        }
    }

    /// Sets the service name which will compose the well-known URI.
    pub fn well_known_service(self, service_name: &str) -> (r: Self)
        ensures
            r@ == (ServerModel { well_known_service: service_name@, ..self@ }),
    {
        Self {
            http_address: self.http_address,
            port: self.port,
            scheme: self.scheme,
            well_known_service: owned(service_name),
            service_config: self.service_config,
            device: self.device,
        }
    }

    /// Sets a discovery service.
    pub fn discovery_service(self, service_config: ServiceConfig) -> (r: Self)
        ensures
            r@ == (ServerModel {
                service: Some((service_config.instance_name@, service_config.spec_properties())),
                ..self@
            }),
    {
        Self {
            http_address: self.http_address,
            port: self.port,
            scheme: self.scheme,
            well_known_service: self.well_known_service,
            service_config: Some(service_config),
            device: self.device,
        }
    }

    /// Plans the run of the device on the server: where to listen, the
    /// well-known path, what the device hands over when it is finalized,
    /// and the service to announce with the scheme and the well-known path
    /// among its properties.
    ///
    /// A device that lacks an action that its kind demands is refused.
    pub fn run(self) -> (r: Result<RunPlan, Error>)
        ensures
            r is Ok <==> self@.device.complete(),
            r is Err ==> r->Err_0 == Error::IncompleteDevice,
            r is Ok ==> {
                let plan = r->Ok_0;
                &&& plan.kind == self@.device.kind
                &&& plan.listener_bind@ == spec_listener_bind(self@.http_address, self@.port)
                &&& plan.well_known_uri@ == spec_well_known_uri(self@.well_known_service)
                &&& plan.main_route@ == self@.device.main_route
                &&& plan.manifest@ == self@.device.manifest()
                &&& models(plan.actions@) == self@.device.all()
                &&& match plan.service {
                    Some(config) => Some((config.instance_name@, config.spec_properties())),
                    None => None,
                } == self@.announced()
            },
    {
        let listener = listener_bind(self.http_address, self.port);
        let well_known_uri = join("/.well-known/", self.well_known_service.as_str());
        let finalized = match self.device.finalize() {
            Ok(finalized) => finalized,
            Err(e) => { return Err(e); },
        };
        let service = match self.service_config {
            Some(config) => Some(
                config.property("scheme", self.scheme.as_str()).property(
                    "path",
                    well_known_uri.as_str(),
                ),
            ),
            None => None,
        };
        Ok(
            RunPlan {
                kind: finalized.kind,
                listener_bind: listener,
                well_known_uri,
                main_route: finalized.main_route,
                manifest: finalized.manifest,
                actions: finalized.actions,
                service,
            },
        )
    }
}

} // verus!
