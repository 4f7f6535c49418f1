//! Network interfaces and their unit files.

use vstd::prelude::*;
use crate::ip::{IpAddr, IpNetwork, NetworkRoute};
use crate::mac::MacAddr;
use crate::text::decimal_text_two_wide;
use crate::unit::{
    key_value_line, lemma_default_priority, optional_line, priority_or_default, push_line,
    unit_file_name, unit_file_name_text,
};

verus! {

/// A network interface as it is read from its source. It is matched by its
/// name, by its hardware address, or by both; a value may hold neither, and
/// then has no unit name.
#[derive(Clone, Debug)]
pub struct Interface {
    pub name: Option<String>,
    pub mac_address: Option<MacAddr>,
    pub priority: Option<u32>,
    pub nameservers: Vec<IpAddr>,
    pub ip_addresses: Vec<IpNetwork>,
    pub routes: Vec<NetworkRoute>,
    pub bond: Option<String>,
}

/// What an interface is known by: at least one of a name and a hardware
/// address.
#[derive(Clone, Debug)]
pub enum Identifier {
    NamedOnly(String),
    MacOnly(MacAddr),
    Both(String, MacAddr),
}

/// An identifier as plain text values.
pub enum IdentifierView {
    NamedOnly(Seq<char>),
    MacOnly(MacAddr),
    Both(Seq<char>, MacAddr),
}

/// An interface as plain text values.
pub struct InterfaceView {
    pub name: Option<Seq<char>>,
    pub mac_address: Option<MacAddr>,
    pub priority: Option<u32>,
    pub nameservers: Seq<IpAddr>,
    pub ip_addresses: Seq<IpNetwork>,
    pub routes: Seq<NetworkRoute>,
    pub bond: Option<Seq<char>>,
}

/// The characters of an optional string.
pub open spec fn optional_text(s: Option<String>) -> Option<Seq<char>> {
    match s {
        Some(s) => Some(s@),
        None => None,
    }
}

impl View for Identifier {
    type V = IdentifierView;

    open spec fn view(&self) -> IdentifierView {
        match self {
            Identifier::NamedOnly(name) => IdentifierView::NamedOnly(name@),
            Identifier::MacOnly(mac) => IdentifierView::MacOnly(*mac),
            Identifier::Both(name, mac) => IdentifierView::Both(name@, *mac),
        }
    }
}

impl View for Interface {
    type V = InterfaceView;

    open spec fn view(&self) -> InterfaceView {
        InterfaceView {
            name: optional_text(self.name),
            mac_address: self.mac_address,
            priority: self.priority,
            nameservers: self.nameservers@,
            ip_addresses: self.ip_addresses@,
            routes: self.routes@,
            bond: optional_text(self.bond),
        }
    }
}

impl IdentifierView {
    /// The identifier as it stands in a unit name: the name where there is
    /// one, else the hardware address as text.
    pub open spec fn text(self) -> Seq<char> {
        match self {
            IdentifierView::NamedOnly(name) => name,
            IdentifierView::MacOnly(mac) => mac.text(),
            IdentifierView::Both(name, _) => name,
        }
    }

    /// The name of the unit file of an interface with this identifier and
    /// priority: the priority, or the default where there is none, then the
    /// identifier, with the suffix `.network`.
    pub open spec fn unit_name_text(self, priority: Option<u32>) -> Seq<char> {
        unit_file_name_text(priority, self.text(), ".network"@)
    }
}

impl Identifier {
    /// The identifier as it stands in a unit name.
    pub fn to_string(&self) -> (s: String)
        ensures
            s@ == self@.text(),
    {
        match self {
            Identifier::NamedOnly(name) => name.clone(),
            Identifier::MacOnly(mac) => mac.to_string(),
            Identifier::Both(name, _) => name.clone(),
        }
    }

    /// The name of the unit file of an interface with this identifier.
    pub fn unit_name(&self, priority: Option<u32>) -> (name: String)
        ensures
            name@ == self@.unit_name_text(priority),
    {
        let identifier = self.to_string();
        unit_file_name(priority, identifier.as_str(), ".network")
    }
}

/// The line that names one nameserver.
pub open spec fn dns_line(nameserver: IpAddr) -> Seq<char> {
    key_value_line("DNS"@, nameserver.text())
}

/// The section of one address: an empty line, the header, the address.
pub open spec fn address_section(network: IpNetwork) -> Seq<char> {
    "\n[Address]\n"@ + key_value_line("Address"@, network.text())
}

/// The section of one route: an empty line, the header, the destination and
/// then the gateway.
pub open spec fn route_section(route: NetworkRoute) -> Seq<char> {
    "\n[Route]\n"@ + key_value_line("Destination"@, route.destination.text()) + key_value_line(
        "Gateway"@,
        route.gateway.text(),
    )
}

impl InterfaceView {
    /// What the interface is known by; `None` where it has neither a name
    /// nor a hardware address.
    pub open spec fn identifier(self) -> Option<IdentifierView> {
        match (self.name, self.mac_address) {
            (Some(name), Some(mac)) => Some(IdentifierView::Both(name, mac)),
            (Some(name), None) => Some(IdentifierView::NamedOnly(name)),
            (None, Some(mac)) => Some(IdentifierView::MacOnly(mac)),
            (None, None) => None,
        }
    }

    /// The name of the interface's unit file.
    pub open spec fn unit_name_text(self) -> Seq<char>
        recommends
            self.identifier() is Some,
    {
        self.identifier()->0.unit_name_text(self.priority)
    }

    /// The section that says which interface is meant: the header, then the
    /// name and the hardware address, each where the interface has it.
    pub open spec fn match_section(self) -> Seq<char> {
        "[Match]\n"@ + optional_line("Name"@, self.name) + optional_line(
            "MACAddress"@,
            match self.mac_address {
                Some(mac) => Some(mac.text()),
                None => None,
            },
        )
    }

    /// The lines of the nameservers, one each, in their order.
    pub open spec fn dns_lines(self) -> Seq<char> {
        self.nameservers.map_values(|a: IpAddr| dns_line(a)).flatten()
    }

    /// The section of the interface's own settings, after an empty line: the
    /// header, the nameservers, and the bond where the interface has one.
    pub open spec fn network_section(self) -> Seq<char> {
        "\n[Network]\n"@ + self.dns_lines() + optional_line("Bond"@, self.bond)
    }

    /// The sections of the addresses, one each, in their order.
    pub open spec fn address_sections(self) -> Seq<char> {
        self.ip_addresses.map_values(|n: IpNetwork| address_section(n)).flatten()
    }

    /// The sections of the routes, one each, in their order.
    pub open spec fn route_sections(self) -> Seq<char> {
        self.routes.map_values(|r: NetworkRoute| route_section(r)).flatten()
    }

    /// The whole unit file: the match section, the network section, then
    /// the addresses and then the routes.
    pub open spec fn config_text(self) -> Seq<char> {
        self.match_section() + self.network_section() + self.address_sections()
            + self.route_sections()
    }
}

impl Interface {
    /// What the interface is known by; `None` exactly where it has neither
    /// a name nor a hardware address.
    pub fn identifier(&self) -> (id: Option<Identifier>)
        ensures
            match id {
                Some(i) => self@.identifier() == Some(i@),
                None => self@.identifier() is None,
            },
    {
        match (&self.name, self.mac_address) {
            (Some(name), Some(mac)) => Some(Identifier::Both(name.clone(), mac)),
            (Some(name), None) => Some(Identifier::NamedOnly(name.clone())),
            (None, Some(mac)) => Some(Identifier::MacOnly(mac)),
            (None, None) => None,
        }
    }

    /// The name of the interface's unit file. An interface with neither a
    /// name nor a hardware address has none.
    pub fn unit_name(&self) -> (name: String)
        requires
            self@.identifier() is Some,
        ensures
            name@ == self@.unit_name_text(),
    {
        match self.identifier() {
            Some(id) => id.unit_name(self.priority),
            None => unreached(),
        }
    }

    /// Appends the match section.
    pub fn push_match_section(&self, out: &mut String)
        ensures
            final(out)@ == old(out)@ + self@.match_section(),
    {
        out.append("[Match]\n");
        if let Some(name) = &self.name {
            push_line(out, "Name", name.as_str());
        }
        if let Some(mac) = self.mac_address {
            let text = mac.to_string();
            push_line(out, "MACAddress", text.as_str());
        }
        assert(out@ =~= old(out)@ + self@.match_section());
    }

    /// Appends one line for each nameserver.
    pub fn push_dns_lines(&self, out: &mut String)
        ensures
            final(out)@ == old(out)@ + self@.dns_lines(),
    {
        let ghost lines = self.nameservers@.map_values(|a: IpAddr| dns_line(a));
        assert(lines.take(0).flatten() =~= Seq::<char>::empty());
        let mut i: usize = 0;
        while i < self.nameservers.len()
            invariant
                i <= self.nameservers.len(),
                lines == self.nameservers@.map_values(|a: IpAddr| dns_line(a)),
                out@ == old(out)@ + lines.take(i as int).flatten(),
            decreases self.nameservers.len() - i,
        {
            let text = self.nameservers[i].to_string();
            push_line(out, "DNS", text.as_str());
            proof {
                assert(lines[i as int] == dns_line(self.nameservers@[i as int]));
                assert(lines.take(i + 1) =~= lines.take(i as int).push(lines[i as int]));
                lines.take(i as int).lemma_flatten_push(lines[i as int]);
            }
            i += 1;
        }
        assert(lines.take(i as int) =~= lines);
    }

    /// Appends the network section.
    pub fn push_network_section(&self, out: &mut String)
        ensures
            final(out)@ == old(out)@ + self@.network_section(),
    {
        out.append("\n[Network]\n");
        self.push_dns_lines(out);
        if let Some(bond) = &self.bond {
            push_line(out, "Bond", bond.as_str());
        }
        assert(out@ =~= old(out)@ + self@.network_section());
    }

    /// Appends one section for each address.
    pub fn push_address_sections(&self, out: &mut String)
        ensures
            final(out)@ == old(out)@ + self@.address_sections(),
    {
        let ghost sections = self.ip_addresses@.map_values(|n: IpNetwork| address_section(n));
        assert(sections.take(0).flatten() =~= Seq::<char>::empty());
        let mut i: usize = 0;
        while i < self.ip_addresses.len()
            invariant
                i <= self.ip_addresses.len(),
                sections == self.ip_addresses@.map_values(|n: IpNetwork| address_section(n)),
                out@ == old(out)@ + sections.take(i as int).flatten(),
            decreases self.ip_addresses.len() - i,
        {
            let ghost before = out@;
            let text = self.ip_addresses[i].to_string();
            out.append("\n[Address]\n");
            push_line(out, "Address", text.as_str());
            proof {
                assert(out@ =~= before + address_section(self.ip_addresses@[i as int]));
                assert(sections[i as int] == address_section(self.ip_addresses@[i as int]));
                assert(sections.take(i + 1) =~= sections.take(i as int).push(sections[i as int]));
                sections.take(i as int).lemma_flatten_push(sections[i as int]);
            }
            i += 1;
        }
        assert(sections.take(i as int) =~= sections);
    }

    /// Appends one section for each route.
    pub fn push_route_sections(&self, out: &mut String)
        ensures
            final(out)@ == old(out)@ + self@.route_sections(),
    {
        let ghost sections = self.routes@.map_values(|r: NetworkRoute| route_section(r));
        assert(sections.take(0).flatten() =~= Seq::<char>::empty());
        let mut i: usize = 0;
        while i < self.routes.len()
            invariant
                i <= self.routes.len(),
                sections == self.routes@.map_values(|r: NetworkRoute| route_section(r)),
                out@ == old(out)@ + sections.take(i as int).flatten(),
            decreases self.routes.len() - i,
        {
            let ghost before = out@;
            let destination = self.routes[i].destination.to_string();
            let gateway = self.routes[i].gateway.to_string();
            out.append("\n[Route]\n");
            push_line(out, "Destination", destination.as_str());
            push_line(out, "Gateway", gateway.as_str());
            proof {
                assert(out@ =~= before + route_section(self.routes@[i as int]));
                assert(sections[i as int] == route_section(self.routes@[i as int]));
                assert(sections.take(i + 1) =~= sections.take(i as int).push(sections[i as int]));
                sections.take(i as int).lemma_flatten_push(sections[i as int]);
            }
            i += 1;
        }
        assert(sections.take(i as int) =~= sections);
    }

    /// The content of the interface's unit file.
    pub fn config(&self) -> (config: String)
        ensures
            config@ == self@.config_text(),
    {
        let mut config = String::new();
        self.push_match_section(&mut config);
        self.push_network_section(&mut config);
        self.push_address_sections(&mut config);
        self.push_route_sections(&mut config);
        assert(config@ =~= self@.config_text());
        config
    }
}

/// An interface with a name is filed under that name, whatever its hardware
/// address: the unit name is the priority, at least two digits wide, a
/// hyphen, the name, and `.network`.
pub proof fn lemma_unit_name_of_named(interface: Interface, name: String, mac: Option<MacAddr>)
    requires
        interface.name == Some(name),
    ensures
        interface@.identifier() is Some,
        interface@.unit_name_text() == decimal_text_two_wide(
            priority_or_default(interface.priority) as nat,
        ) + "-"@ + name@ + ".network"@,
        (InterfaceView { mac_address: mac, ..interface@ }).unit_name_text()
            == interface@.unit_name_text(),
{
}

/// An interface without a priority is filed as one with the priority ten.
pub proof fn lemma_unit_name_default_priority(interface: Interface)
    requires
        interface.priority is None,
    ensures
        interface@.unit_name_text() == (InterfaceView {
            priority: Some(10u32),
            ..interface@
        }).unit_name_text(),
        interface@.unit_name_text() == "10-"@ + interface@.identifier()->0.text() + ".network"@,
{
    lemma_default_priority(interface@.identifier()->0.text(), ".network"@);
}

/// An interface without a name is filed under its hardware address as text.
pub proof fn lemma_unit_name_of_unnamed(interface: Interface, mac: MacAddr)
    requires
        interface.name is None,
        interface.mac_address == Some(mac),
    ensures
        interface@.identifier() is Some,
        interface@.unit_name_text() == decimal_text_two_wide(
            priority_or_default(interface.priority) as nat,
        ) + "-"@ + mac.text() + ".network"@,
{
}

/// The interfaces that have no unit name are those with neither a name nor
/// a hardware address.
pub proof fn lemma_identifier_is_absent(interface: Interface)
    ensures
        interface@.identifier() is None <==> interface.name is None
            && interface.mac_address is None,
{
}

/// The priority does not show in the unit file: two interfaces that differ
/// in their priority alone have the same content.
pub proof fn lemma_config_ignores_priority(interface: Interface, priority: Option<u32>)
    ensures
        (InterfaceView { priority, ..interface@ }).config_text() == interface@.config_text(),
{
}

/// An interface with nothing but a priority has a unit file of two headers.
pub proof fn lemma_config_of_bare_interface(interface: Interface)
    requires
        interface.name is None,
        interface.mac_address is None,
        interface.bond is None,
        interface.nameservers@.len() == 0,
        interface.ip_addresses@.len() == 0,
        interface.routes@.len() == 0,
    ensures
        interface@.config_text() == "[Match]\n\n[Network]\n"@,
{
    reveal_strlit("[Match]\n\n[Network]\n");
    reveal_strlit("[Match]\n");
    reveal_strlit("\n[Network]\n");
    assert(interface@.dns_lines() =~= Seq::<char>::empty());
    assert(interface@.address_sections() =~= Seq::<char>::empty());
    assert(interface@.route_sections() =~= Seq::<char>::empty());
    assert(interface@.config_text() =~= "[Match]\n\n[Network]\n"@);
}

/// Rendering an interface twice gives the same two texts: whatever
/// `unit_name` and `config` return for an interface is fixed by the
/// interface's value alone.
pub proof fn lemma_interface_rendering_is_deterministic(
    interface: Interface,
    first_name: String,
    second_name: String,
    first_config: String,
    second_config: String,
)
    requires
        first_name@ == interface@.unit_name_text(),
        second_name@ == interface@.unit_name_text(),
        first_config@ == interface@.config_text(),
        second_config@ == interface@.config_text(),
    ensures
        first_name@ == second_name@,
        first_config@ == second_config@,
{
}

} // verus!
