//! Port forwarding from the host into a guest, and the form that adds one.
use vstd::prelude::*;
use vstd::string::*;

use crate::text::parse_unsigned_str;
use crate::text::parse_unsigned;
use crate::network::Network;
use crate::edit::{edit_field, typed, untouched};
use crate::key::{Key, is_down, is_left, is_right, is_up};

verus! {

/// The transport protocol of a forwarded port.
#[derive(Debug, Clone, Copy, PartialEq, Eq, Structural)]
pub enum Protocol {
    TCP,
    UDP,
}

impl Default for Protocol {
    fn default() -> (r: Self)
        ensures
            r == Protocol::TCP,
    {
        Protocol::TCP
    }
}

/// The display name of a protocol.
pub open spec fn protocol_name(p: Protocol) -> Seq<char> {
    match p {
        Protocol::TCP => "TCP"@,
        Protocol::UDP => "UDP"@,
    }
}

/// The lower-case name of a protocol.
pub open spec fn protocol_lower_name(p: Protocol) -> Seq<char> {
    match p {
        Protocol::TCP => "tcp"@,
        Protocol::UDP => "udp"@,
    }
}

impl Protocol {
    /// The display name (`TCP`, `UDP`).
    pub fn name(&self) -> (r: &'static str)
        ensures
            r@ == protocol_name(*self),
    {
        match self {
            Protocol::TCP => "TCP",
            Protocol::UDP => "UDP",
        }
    }

    /// The lower-case name (`tcp`, `udp`).
    pub fn lower_name(&self) -> (r: &'static str)
        ensures
            r@ == protocol_lower_name(*self),
    {
        match self {
            Protocol::TCP => "tcp",
            Protocol::UDP => "udp",
        }
    }
}

/// A host port forwarded to a guest port.
#[derive(Debug, Clone, Copy, PartialEq, Eq, Structural)]
pub struct PortMapping {
    pub guest_port: u16,
    pub host_port: u16,
    pub protocol: Protocol,
}

/// The form section that has the focus.
#[derive(Debug, Clone, Copy, PartialEq, Eq, Structural)]
pub enum MappingSection {
    Network,
    GuestPort,
    HostPort,
    Protocol,
}

/// The error a port field shows, given its text: empty, not a port number,
/// or zero. `name` is how the message names the field.
pub open spec fn port_field_error(text: Seq<char>, name: Seq<char>) -> Option<Seq<char>> {
    if text.len() == 0 {
        Some("Field required"@)
    } else {
        match parse_unsigned(text, 65535) {
            Some(v) => if v == 0 {
                Some(name + " can not be 0"@)
            } else {
                None
            },
            None => Some(name + " value should be a number"@),
        }
    }
}

/// The form that adds a port mapping to one of the VM's networks.
#[derive(Debug, Clone)]
pub struct MappingBuilder {
    pub section: MappingSection,
    pub guest_port: String,
    pub guest_port_cursor: usize,
    pub guest_port_error: Option<String>,
    pub host_port: String,
    pub host_port_cursor: usize,
    pub host_port_error: Option<String>,
    pub protocol: Protocol,
    pub selected_network: usize,
}

/// The characters of an optional message.
pub open spec fn opt_view(s: Option<String>) -> Option<Seq<char>> {
    match s {
        Some(x) => Some(x@),
        None => None,
    }
}

fn port_error(text: &str, name: &str) -> (r: Option<String>)
    ensures
        opt_view(r) == port_field_error(text@, name@),
{
    if text.unicode_len() == 0 {
        return Some(String::from_str("Field required"));
    }
    match parse_unsigned_str(text, 65535) {
        Some(v) => {
            if v == 0 {
                let mut m = String::from_str(name);
                m.append(" can not be 0");
                Some(m)
            } else {
                None
            }
        },
        None => {
            let mut m = String::from_str(name);
            m.append(" value should be a number");
            Some(m)
        },
    }
}

/// `g` is the mapping form `f` after `key`, with `n` networks to choose
/// from: the vertical keys move the focus; a side key flips the protocol or
/// steps through the networks, wrapping around; other keys edit the focused
/// port field.
pub open spec fn mapping_form_after(f: MappingBuilder, g: MappingBuilder, key: Key, n: nat) -> bool {
    let side = !is_down(key) && !is_up(key);
    &&& g.section == if is_down(key) {
        match f.section {
            MappingSection::Network => MappingSection::GuestPort,
            MappingSection::GuestPort => MappingSection::HostPort,
            MappingSection::HostPort => MappingSection::Protocol,
            MappingSection::Protocol => MappingSection::Network,
        }
    } else if is_up(key) {
        match f.section {
            MappingSection::Network => MappingSection::Protocol,
            MappingSection::GuestPort => MappingSection::Network,
            MappingSection::HostPort => MappingSection::GuestPort,
            MappingSection::Protocol => MappingSection::HostPort,
        }
    } else {
        f.section
    }
    &&& g.protocol == if side && f.section == MappingSection::Protocol && (is_left(key)
        || is_right(key)) {
        match f.protocol {
            Protocol::TCP => Protocol::UDP,
            Protocol::UDP => Protocol::TCP,
        }
    } else {
        f.protocol
    }
    &&& g.selected_network == if side && f.section == MappingSection::Network && is_right(key) {
        if f.selected_network + 1 == n {
            0
        } else {
            f.selected_network + 1
        }
    } else if side && f.section == MappingSection::Network && is_left(key) {
        if f.selected_network == 0 {
            n - 1
        } else {
            f.selected_network - 1
        }
    } else {
        f.selected_network as int
    }
    &&& if side && f.section == MappingSection::GuestPort {
        typed(f.guest_port, f.guest_port_cursor, g.guest_port, g.guest_port_cursor, key)
    } else {
        untouched(f.guest_port, f.guest_port_cursor, g.guest_port, g.guest_port_cursor)
    }
    &&& if side && f.section == MappingSection::HostPort {
        typed(f.host_port, f.host_port_cursor, g.host_port, g.host_port_cursor, key)
    } else {
        untouched(f.host_port, f.host_port_cursor, g.host_port, g.host_port_cursor)
    }
    &&& g.guest_port_error == f.guest_port_error
    &&& g.host_port_error == f.host_port_error
}

/// `key` goes to the focused port field.
pub open spec fn mapping_key_to_field(s: MappingSection, key: Key) -> bool {
    &&& !is_down(key)
    &&& !is_up(key)
    &&& (s == MappingSection::GuestPort || s == MappingSection::HostPort)
}

impl MappingBuilder {
    /// An empty form: first network, TCP, no ports typed yet.
    pub fn new() -> (r: Self)
        ensures
            r.section == MappingSection::Network,
            r.guest_port@ == Seq::<char>::empty(),
            r.guest_port_cursor == 0,
            r.host_port@ == Seq::<char>::empty(),
            r.host_port_cursor == 0,
            r.guest_port_error is None,
            r.host_port_error is None,
            r.protocol == Protocol::TCP,
            r.selected_network == 0,
    {
        MappingBuilder {
            section: MappingSection::Network,
            guest_port: String::new(),
            guest_port_cursor: 0,
            guest_port_error: None,
            host_port: String::new(),
            host_port_cursor: 0,
            host_port_error: None,
            protocol: Protocol::TCP,
            selected_network: 0,
        }
    }

    /// Checks both ports and records the error of each; true when neither has one.
    pub fn validate(&mut self) -> (valid: bool)
        ensures
            opt_view(final(self).host_port_error) == port_field_error(
                old(self).host_port@,
                "Host Port"@,
            ),
            opt_view(final(self).guest_port_error) == port_field_error(
                old(self).guest_port@,
                "Guest Port"@,
            ),
            valid == (port_field_error(old(self).host_port@, "Host Port"@) is None
                && port_field_error(old(self).guest_port@, "Guest Port"@) is None),
            final(self).section == old(self).section,
            final(self).guest_port == old(self).guest_port,
            final(self).guest_port_cursor == old(self).guest_port_cursor,
            final(self).host_port == old(self).host_port,
            final(self).host_port_cursor == old(self).host_port_cursor,
            final(self).protocol == old(self).protocol,
            final(self).selected_network == old(self).selected_network,
    {
        self.host_port_error = port_error(self.host_port.as_str(), "Host Port");
        self.guest_port_error = port_error(self.guest_port.as_str(), "Guest Port");
        self.host_port_error.is_none() && self.guest_port_error.is_none()
    }

    /// The mapping the form describes, and the network it belongs to.
    pub fn build(&self, networks: &Vec<Network>) -> (r: (String, PortMapping))
        requires
            parse_unsigned(self.guest_port@, 65535) is Some,
            parse_unsigned(self.host_port@, 65535) is Some,
            self.selected_network < networks.len(),
        ensures
            r.0@ == networks@[self.selected_network as int].id@,
            r.1.guest_port == parse_unsigned(self.guest_port@, 65535)->0,
            r.1.host_port == parse_unsigned(self.host_port@, 65535)->0,
            r.1.protocol == self.protocol,
    {
        let guest_port = parse_unsigned_str(self.guest_port.as_str(), 65535).unwrap() as u16;
        let host_port = parse_unsigned_str(self.host_port.as_str(), 65535).unwrap() as u16;
        let mapping = PortMapping { guest_port, host_port, protocol: self.protocol };
        (networks[self.selected_network].id.clone(), mapping)
    }

    /// Reacts to a key, with `n` networks to choose from; a key that is no
    /// move edits the focused port field. Returns true when the key went to a
    /// port field.
    pub fn handle_key_events(&mut self, key: Key, n: usize) -> (to_field: bool)
        requires
            old(self).selected_network < n,
        ensures
            mapping_form_after(*old(self), *final(self), key, n as nat),
            to_field == mapping_key_to_field(old(self).section, key),
            final(self).selected_network < n,
    {
        if key.down() {
            self.section = match self.section {
                MappingSection::Network => MappingSection::GuestPort,
                MappingSection::GuestPort => MappingSection::HostPort,
                MappingSection::HostPort => MappingSection::Protocol,
                MappingSection::Protocol => MappingSection::Network,
            };
            return false;
        }
        if key.up() {
            self.section = match self.section {
                MappingSection::Network => MappingSection::Protocol,
                MappingSection::GuestPort => MappingSection::Network,
                MappingSection::HostPort => MappingSection::GuestPort,
                MappingSection::Protocol => MappingSection::HostPort,
            };
            return false;
        }
        match self.section {
            MappingSection::Protocol => {
                if key.left() || key.right() {
                    self.protocol = match self.protocol {
                        Protocol::TCP => Protocol::UDP,
                        Protocol::UDP => Protocol::TCP,
                    };
                }
                false
            },
            MappingSection::Network => {
                if key.right() {
                    self.selected_network = if self.selected_network == n - 1 {
                        0
                    } else {
                        self.selected_network + 1
                    };
                } else if key.left() {
                    self.selected_network = if self.selected_network == 0 {
                        n - 1
                    } else {
                        self.selected_network - 1
                    };
                }
                false
            },
            MappingSection::GuestPort => {
                edit_field(&mut self.guest_port, &mut self.guest_port_cursor, key);
                true
            },
            MappingSection::HostPort => {
                edit_field(&mut self.host_port, &mut self.host_port_cursor, key);
                true
            },
        }
    }
}

/// In the rule form, Down then Up gives back the same form.
pub proof fn lemma_mapping_form_down_up(
    f0: MappingBuilder,
    f1: MappingBuilder,
    f2: MappingBuilder,
    n: nat,
)
    requires
        mapping_form_after(f0, f1, Key::Down, n),
        mapping_form_after(f1, f2, Key::Up, n),
    ensures
        f2 == f0,
{
}

} // verus!
