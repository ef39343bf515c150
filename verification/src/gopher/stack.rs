//! Interfaces as the service keeps them: the device behind each, its
//! addresses, and how the configuration turns into addresses and routes.

use vstd::prelude::*;
use crate::device::{DeviceCapabilities, GlendaNetDevice, MacAddress, Medium};
use crate::error::Error;
use crate::gopher::config::{NetworkConfig, NetworkInterfaceConfig, RouteConfig};
use crate::netstack::{ipv4_octets, parse_ipv4};

verus! {

/// An IPv4 address, by its four octets.
#[derive(Clone, Copy, Debug, PartialEq, Eq, Structural)]
pub struct Ipv4 {
    pub a: u8,
    pub b: u8,
    pub c: u8,
    pub d: u8,
}

/// An address with the length of its network prefix.
#[derive(Clone, Copy, Debug, PartialEq, Eq, Structural)]
pub struct Ipv4Cidr {
    pub address: Ipv4,
    pub prefix_len: u8,
}

/// The address of an interface that the configuration does not name:
/// `10.0.2.15/24`.
pub open spec fn spec_fallback_address() -> Ipv4Cidr {
    Ipv4Cidr { address: Ipv4 { a: 10, b: 0, c: 2, d: 15 }, prefix_len: 24 }
}

/// The default gateway of an interface that the configuration does not
/// name: `10.0.2.2`.
pub open spec fn spec_fallback_gateway() -> Ipv4 {
    Ipv4 { a: 10, b: 0, c: 2, d: 2 }
}

/// The address of the loopback interface: `127.0.0.1/8`.
pub open spec fn spec_loopback_address() -> Ipv4Cidr {
    Ipv4Cidr { address: Ipv4 { a: 127, b: 0, c: 0, d: 1 }, prefix_len: 8 }
}

/// The address of an interface that the configuration does not name.
#[verifier::when_used_as_spec(spec_fallback_address)]
pub fn fallback_address() -> (r: Ipv4Cidr)
    ensures
        r == spec_fallback_address(),
{
    Ipv4Cidr { address: Ipv4 { a: 10, b: 0, c: 2, d: 15 }, prefix_len: 24 }
}

/// The default gateway of an interface that the configuration does not
/// name.
#[verifier::when_used_as_spec(spec_fallback_gateway)]
pub fn fallback_gateway() -> (r: Ipv4)
    ensures
        r == spec_fallback_gateway(),
{
    Ipv4 { a: 10, b: 0, c: 2, d: 2 }
}

/// The address of the loopback interface.
#[verifier::when_used_as_spec(spec_loopback_address)]
pub fn loopback_address() -> (r: Ipv4Cidr)
    ensures
        r == spec_loopback_address(),
{
    Ipv4Cidr { address: Ipv4 { a: 127, b: 0, c: 0, d: 1 }, prefix_len: 8 }
}

/// Largest payload of a loopback frame.
pub const LOOPBACK_MTU: usize = 65535;

/// The addressing of one interface in the stack.
#[derive(Clone, Copy, Debug, PartialEq, Eq, Structural)]
pub struct InterfaceState {
    /// The hardware address.
    pub mac: MacAddress,
    /// The address and its prefix.
    pub address: Ipv4Cidr,
    /// Where packets to other networks go, if anywhere.
    pub gateway: Option<Ipv4>,
}

/// The device behind an interface.
pub enum DeviceVariant {
    /// A driver's device.
    Net(GlendaNetDevice),
    /// The stack's own loop, which needs no driver and no pool.
    Loopback,
}

/// One interface: its device and its addressing.
pub struct InterfaceContext {
    pub device: DeviceVariant,
    pub iface: InterfaceState,
}

impl Ipv4 {
    /// The address that a text denotes to the stack, if any.
    pub open spec fn of_text(text: Seq<char>) -> Option<Ipv4> {
        match ipv4_octets(text) {
            Some((a, b, c, d)) => Some(Ipv4 { a, b, c, d }),
            None => None,
        }
    }

    /// Whether this is `0.0.0.0`.
    pub open spec fn spec_is_unspecified(self) -> bool {
        self.a == 0 && self.b == 0 && self.c == 0 && self.d == 0
    }

    /// Whether this is a unicast address: neither the broadcast address, nor
    /// a multicast address, nor `0.0.0.0`.
    pub open spec fn spec_is_unicast(self) -> bool {
        &&& !(self.a == 255 && self.b == 255 && self.c == 255 && self.d == 255)
        &&& !(224 <= self.a <= 239)
        &&& !self.spec_is_unspecified()
    }

    /// Reads a dotted address as the stack reads it.
    pub fn parse(text: &str) -> (r: Option<Ipv4>)
        ensures
            r == Ipv4::of_text(text@),
    {
        match parse_ipv4(text) {
            Some((a, b, c, d)) => Some(Ipv4 { a, b, c, d }),
            None => None,
        }
    }

    /// Whether this is `0.0.0.0`.
    #[verifier::when_used_as_spec(spec_is_unspecified)]
    pub fn is_unspecified(self) -> (r: bool)
        ensures
            r == self.spec_is_unspecified(),
    {
        self.a == 0 && self.b == 0 && self.c == 0 && self.d == 0
    }

    /// Whether this is a unicast address.
    #[verifier::when_used_as_spec(spec_is_unicast)]
    pub fn is_unicast(self) -> (r: bool)
        ensures
            r == self.spec_is_unicast(),
    {
        let broadcast = self.a == 255 && self.b == 255 && self.c == 255 && self.d == 255;
        let multicast = 224 <= self.a && self.a <= 239;
        !(broadcast || multicast || self.is_unspecified())
    }
}

impl Ipv4Cidr {
    /// Whether an interface can have this address with this prefix. The
    /// stack takes every unicast address and `0.0.0.0`, with a prefix of up
    /// to 32 bits.
    pub open spec fn assignable(self) -> bool {
        (self.address.spec_is_unicast() || self.address.spec_is_unspecified())
            && self.prefix_len <= 32
    }
}

impl DeviceVariant {
    /// What the device tells the stack of itself. Both kinds carry Ethernet
    /// frames.
    pub fn capabilities(&self) -> (caps: DeviceCapabilities)
        ensures
            caps.medium == Medium::Ethernet,
            caps.max_transmission_unit == (match *self {
                DeviceVariant::Net(_) => crate::device::MTU,
                DeviceVariant::Loopback => LOOPBACK_MTU,
            }),
    {
        match self {
            DeviceVariant::Net(d) => d.capabilities(),
            DeviceVariant::Loopback => DeviceCapabilities {
                max_transmission_unit: LOOPBACK_MTU,
                medium: Medium::Ethernet,
            },
        }
    }
}

impl InterfaceContext {
    /// The hardware id of the driver's device behind the interface, if it
    /// has one.
    pub open spec fn hw_id(self) -> Option<u64> {
        match self.device {
            DeviceVariant::Net(d) => Some(d.hw_id),
            DeviceVariant::Loopback => None,
        }
    }

    /// Whether this is the loopback interface, with its address.
    pub open spec fn is_loopback(self) -> bool {
        self.device is Loopback && self.iface == (InterfaceState {
            mac: MacAddress::zero(),
            address: loopback_address(),
            gateway: None,
        })
    }
}

/// The place of the first interface of that name in the configuration.
pub open spec fn find_interface(interfaces: Seq<NetworkInterfaceConfig>, name: Seq<char>) -> Option<
    int,
>
    decreases interfaces.len(),
{
    if interfaces.len() == 0 {
        None
    } else if interfaces[0].name@ == name {
        Some(0)
    } else {
        match find_interface(interfaces.skip(1), name) {
            Some(i) => Some(i + 1),
            None => None,
        }
    }
}

/// The next hop that a route gives to everywhere: the route's destination is
/// `0.0.0.0/0`, and both its addresses can be read.
pub open spec fn default_route_via(route: RouteConfig) -> Option<Ipv4> {
    match (Ipv4::of_text(route.dest@), Ipv4::of_text(route.via@)) {
        (Some(dest), Some(via)) => if dest.spec_is_unspecified() && route.mask == 0 {
            Some(via)
        } else {
            None
        },
        _ => None,
    }
}

/// The default gateway after the routes were applied in their order to an
/// interface whose gateway was `start`: each default route replaces the one
/// before.
pub open spec fn gateway_after_routes(start: Option<Ipv4>, routes: Seq<RouteConfig>) -> Option<
    Ipv4,
>
    decreases routes.len(),
{
    if routes.len() == 0 {
        start
    } else {
        match default_route_via(routes.last()) {
            Some(via) => Some(via),
            None => gateway_after_routes(start, routes.drop_last()),
        }
    }
}

/// The interface's settings that take effect: those of its entry in the
/// configuration, where there is one whose address can be read.
pub open spec fn configured_entry(config: Option<NetworkConfig>, name: Seq<char>) -> Option<
    NetworkInterfaceConfig,
> {
    match config {
        Some(c) => match find_interface(c.interfaces@, name) {
            Some(i) => if Ipv4::of_text(c.interfaces@[i].ipv4@) is Some {
                Some(c.interfaces@[i])
            } else {
                None
            },
            None => None,
        },
        None => None,
    }
}

/// The address that the interface gets before it is checked: its entry's, or
/// the fallback.
pub open spec fn planned_address(config: Option<NetworkConfig>, name: Seq<char>) -> Ipv4Cidr {
    match configured_entry(config, name) {
        Some(entry) => Ipv4Cidr {
            address: Ipv4::of_text(entry.ipv4@)->0,
            prefix_len: entry.mask,
        },
        None => fallback_address(),
    }
}

/// The gateway that the interface gets: its entry's where that can be read,
/// the fallback's where it has no entry, and in either case the last default
/// route of the global table where there is one.
pub open spec fn planned_gateway(config: Option<NetworkConfig>, name: Seq<char>) -> Option<Ipv4> {
    let own = match configured_entry(config, name) {
        Some(entry) => match entry.gateway {
            Some(text) => Ipv4::of_text(text@),
            None => None,
        },
        None => Some(fallback_gateway()),
    };
    match config {
        Some(c) => gateway_after_routes(own, c.routes@),
        None => own,
    }
}

/// The addressing of the interface of that name and hardware address under
/// the configuration, or `InvalidArgs` where its entry gives an address that
/// no interface can have.
pub open spec fn planned_interface(config: Option<NetworkConfig>, name: Seq<char>, mac: MacAddress)
    -> Result<InterfaceState, Error> {
    if planned_address(config, name).assignable() {
        Ok(
            InterfaceState {
                mac,
                address: planned_address(config, name),
                gateway: planned_gateway(config, name),
            },
        )
    } else {
        Err(Error::InvalidArgs)
    }
}

/// A device that the configuration names with an address that can be
/// assigned gets that address and prefix, whatever else the configuration
/// holds.
pub proof fn lemma_configured_address(
    config: Option<NetworkConfig>,
    name: Seq<char>,
    mac: MacAddress,
)
    requires
        configured_entry(config, name) is Some,
        planned_address(config, name).assignable(),
    ensures
        planned_interface(config, name, mac) matches Ok(state) && state.mac == mac
            && state.address.prefix_len == configured_entry(config, name)->0.mask && Some(
            state.address.address,
        ) == Ipv4::of_text(configured_entry(config, name)->0.ipv4@),
{
}

/// A configuration that names the device first, with an address that can
/// be assigned, and whose global table is one default route, gives the
/// device that address and the route's next hop as its gateway, whatever
/// gateway its own entry names.
pub proof fn lemma_named_with_default_route(
    config: NetworkConfig,
    name: Seq<char>,
    mac: MacAddress,
    address: Ipv4Cidr,
    via: Ipv4,
)
    requires
        config.interfaces@.len() > 0,
        config.interfaces@[0].name@ == name,
        Ipv4::of_text(config.interfaces@[0].ipv4@) == Some(address.address),
        config.interfaces@[0].mask == address.prefix_len,
        address.assignable(),
        config.routes@.len() == 1,
        default_route_via(config.routes@[0]) == Some(via),
    ensures
        planned_interface(Some(config), name, mac) == Ok::<InterfaceState, Error>(
            InterfaceState { mac, address, gateway: Some(via) },
        ),
{
    assert(find_interface(config.interfaces@, name) == Some(0int));
    assert(config.routes@.last() == config.routes@[0]);
}

/// Finds the first interface of that name in the configuration.
pub fn lookup_interface<'a>(interfaces: &'a Vec<NetworkInterfaceConfig>, name: &str) -> (r: Option<
    &'a NetworkInterfaceConfig,
>)
    ensures
        match find_interface(interfaces@, name@) {
            Some(i) => 0 <= i < interfaces@.len() && r == Some(&interfaces@[i]),
            None => r is None,
        },
{
    let wanted = name.to_owned();
    let mut i: usize = 0;
    assert(interfaces@.skip(0) =~= interfaces@);
    while i < interfaces.len()
        invariant
            i <= interfaces.len(),
            wanted@ == name@,
            find_interface(interfaces@, name@) == (match find_interface(
                interfaces@.skip(i as int),
                name@,
            ) {
                Some(k) => Some(k + i),
                None => None,
            }),
        decreases interfaces.len() - i,
    {
        let ghost rest = interfaces@.skip(i as int);
        assert(rest[0] == interfaces@[i as int]);
        assert(rest.skip(1) =~= interfaces@.skip(i + 1));
        if interfaces[i].name == wanted {
            return Some(&interfaces[i]);
        }
        i = i + 1;
    }
    None
}

/// The default gateway after the global routes were applied to an interface
/// whose gateway was `start`.
pub fn apply_routes(start: Option<Ipv4>, routes: &Vec<RouteConfig>) -> (gateway: Option<Ipv4>)
    ensures
        gateway == gateway_after_routes(start, routes@),
{
    let mut gateway = start;
    let mut i: usize = 0;
    while i < routes.len()
        invariant
            i <= routes.len(),
            gateway == gateway_after_routes(start, routes@.take(i as int)),
        decreases routes.len() - i,
    {
        let route = &routes[i];
        assert(routes@.take(i + 1).drop_last() =~= routes@.take(i as int));
        assert(routes@.take(i + 1).last() == routes@[i as int]);
        match (Ipv4::parse(route.dest.as_str()), Ipv4::parse(route.via.as_str())) {
            (Some(dest), Some(via)) => {
                if dest.is_unspecified() && route.mask == 0 {
                    gateway = Some(via);
                }
            },
            _ => {},
        }
        i = i + 1;
    }
    assert(routes@.take(routes.len() as int) =~= routes@);
    gateway
}

/// Works out the addressing of a probed interface from the configuration:
/// the address and gateway of its entry, or the fallback where it has none
/// that can be read, and then the global default routes.
pub fn plan_interface(config: &Option<NetworkConfig>, name: &str, mac: MacAddress) -> (r: Result<
    InterfaceState,
    Error,
>)
    ensures
        r == planned_interface(*config, name@, mac),
{
    let mut address = fallback_address();
    let mut own: Option<Ipv4> = Some(fallback_gateway());
    if let Some(c) = config {
        if let Some(entry) = lookup_interface(&c.interfaces, name) {
            if let Some(addr) = Ipv4::parse(entry.ipv4.as_str()) {
                address = Ipv4Cidr { address: addr, prefix_len: entry.mask };
                own = match &entry.gateway {
                    Some(text) => Ipv4::parse(text.as_str()),
                    None => None,
                };
            }
        }
    }
    let gateway = match config {
        Some(c) => apply_routes(own, &c.routes),
        None => own,
    };
    let takes = address.address.is_unicast() || address.address.is_unspecified();
    if takes && address.prefix_len <= 32 {
        Ok(InterfaceState { mac, address, gateway })
    } else {
        Err(Error::InvalidArgs)
    }
}

} // verus!
