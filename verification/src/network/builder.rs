//! The form that adds a network interface to a VM.
use vstd::prelude::*;
use vstd::string::*;
use vstd::utf8::{encode_utf8, is_ascii_chars, is_ascii_chars_encode_utf8};
use rand::Rng;

use crate::edit::{edit_field, typed, untouched};
use crate::key::{Key, is_down, is_left, is_right, is_up};
use crate::network::{Network, NetworkBackend, NetworkView, Nic, duplicate_networks, network_id, network_views};
use crate::selection::{after_removal, row_above, row_below, select_next, select_prev, selection_wf};
use crate::network::port_forwarding::opt_view;
use crate::text::{hex_digit, hex_pad, is_hex_digit, to_hex_padded};

verus! {

/// The form section that has the focus.
#[derive(Debug, Clone, Copy, PartialEq, Eq, Structural)]
pub enum Section {
    Backend,
    Nic,
    Mac,
}

/// The form that describes a new network interface.
#[derive(Debug, Clone)]
pub struct NewNetwork {
    pub section: Section,
    pub backend: NetworkBackend,
    pub nic: Nic,
    pub mac: String,
    pub mac_cursor: usize,
    pub mac_error: Option<String>,
}

/// Whether the typed MAC address is accepted: empty, or 17 bytes long with a
/// hexadecimal digit at every position that is not a separator position
/// (`i % 3 == 2`) and comes before the first separator position that does
/// not hold `:` (the check stops there).
pub open spec fn mac_field_valid(m: Seq<char>) -> bool {
    m.len() == 0 || (encode_utf8(m).len() as usize == 17 && forall|i: int|
        #![trigger m[i]]
        0 <= i < m.len() && i % 3 != 2 && (forall|j: int|
            0 <= j < i && j % 3 == 2 ==> m[j] == ':') ==> is_hex_digit(m[i]))
}

/// The address a MAC made from six random bytes reads: the first byte with its
/// two lowest bits set to `10` (locally administered, unicast), then each byte
/// as two upper-case hexadecimal digits, separated by `:`.
pub open spec fn mac_text(b: Seq<u8>) -> Seq<char> {
    hex_pad(((b[0] & 0xFC) | 0x02) as nat, 2, true) + ":"@ + hex_pad(b[1] as nat, 2, true) + ":"@
        + hex_pad(b[2] as nat, 2, true) + ":"@ + hex_pad(b[3] as nat, 2, true) + ":"@ + hex_pad(
        b[4] as nat,
        2,
        true,
    ) + ":"@ + hex_pad(b[5] as nat, 2, true)
}

/// The two upper-case hexadecimal digits of a byte value.
proof fn lemma_hex2(n: nat)
    ensures
        hex_pad(n, 2, true) == seq![hex_digit((n / 16) % 16, true), hex_digit(n % 16, true)],
        is_hex_digit(hex_digit((n / 16) % 16, true)),
        is_hex_digit(hex_digit(n % 16, true)),
        hex_digit((n / 16) % 16, true) <= '\u{7f}',
        hex_digit(n % 16, true) <= '\u{7f}',
{
    reveal_with_fuel(hex_pad, 3);
    assert(hex_pad(n, 2, true) =~= seq![hex_digit((n / 16) % 16, true), hex_digit(n % 16, true)]);
}

/// Every MAC address made from six bytes passes the form's check: a random
/// MAC is always accepted.
pub proof fn lemma_mac_text_valid(b: Seq<u8>)
    requires
        b.len() == 6,
    ensures
        mac_field_valid(mac_text(b)),
{
    let n0 = ((b[0] & 0xFC) | 0x02) as nat;
    lemma_hex2(n0);
    lemma_hex2(b[1] as nat);
    lemma_hex2(b[2] as nat);
    lemma_hex2(b[3] as nat);
    lemma_hex2(b[4] as nat);
    lemma_hex2(b[5] as nat);
    assert(":"@ == seq![':']) by {
        reveal_strlit(":");
    }
    let m = mac_text(b);
    let d = |n: nat| seq![hex_digit((n / 16) % 16, true), hex_digit(n % 16, true)];
    assert(m =~= d(n0) + seq![':'] + d(b[1] as nat) + seq![':'] + d(b[2] as nat) + seq![':'] + d(
        b[3] as nat,
    ) + seq![':'] + d(b[4] as nat) + seq![':'] + d(b[5] as nat));
    assert(m.len() == 17);
    assert forall|i: int| 0 <= i < m.len() && i % 3 != 2 implies is_hex_digit(#[trigger] m[i]) by {
    }
    assert(is_ascii_chars(m));
    is_ascii_chars_encode_utf8(m);
}

/// Six bytes drawn by `rand::rng().random()`; nothing is claimed of them.
#[verifier::external_body]
fn random_bytes() -> [u8; 6] {
    rand::rng().random()
}

/// The MAC address made from the six bytes `b`.
pub fn mac_from_bytes(b: [u8; 6]) -> (r: String)
    ensures
        r@ == mac_text(b@),
{
    let first = (b[0] & 0xFC) | 0x02;
    let mut s = to_hex_padded(first as u64, 2, true);
    let mut i: usize = 1;
    while i < 6
        invariant
            1 <= i <= 6,
            b@.len() == 6,
            s@ == {
                let t = hex_pad(((b@[0] & 0xFC) | 0x02) as nat, 2, true);
                if i == 1 {
                    t
                } else if i == 2 {
                    t + ":"@ + hex_pad(b@[1] as nat, 2, true)
                } else if i == 3 {
                    t + ":"@ + hex_pad(b@[1] as nat, 2, true) + ":"@ + hex_pad(b@[2] as nat, 2, true)
                } else if i == 4 {
                    t + ":"@ + hex_pad(b@[1] as nat, 2, true) + ":"@ + hex_pad(b@[2] as nat, 2, true)
                        + ":"@ + hex_pad(b@[3] as nat, 2, true)
                } else if i == 5 {
                    t + ":"@ + hex_pad(b@[1] as nat, 2, true) + ":"@ + hex_pad(b@[2] as nat, 2, true)
                        + ":"@ + hex_pad(b@[3] as nat, 2, true) + ":"@ + hex_pad(b@[4] as nat, 2, true)
                } else {
                    mac_text(b@)
                }
            },
        decreases 6 - i,
    {
        s.append(":");
        s.append(to_hex_padded(b[i] as u64, 2, true).as_str());
        i = i + 1;
    }
    s
}

/// A random locally administered unicast MAC address.
pub fn random_mac() -> (r: String)
    ensures
        exists|b: [u8; 6]| r@ == mac_text(b@),
{
    let b = random_bytes();
    mac_from_bytes(b)
}

/// `r` is a network that the form `f` can build: a fresh identifier, the
/// chosen backend and card, no rule, and the typed MAC address (a random one
/// for a tap network without one).
pub open spec fn network_built_from(f: NewNetwork, r: Network) -> bool {
    &&& exists|n: u32| r.id@ == network_id(n)
    &&& r.backend == f.backend
    &&& r.nic == f.nic
    &&& r.port_mappings@.len() == 0
    &&& (f.mac@.len() > 0 ==> (r.mac matches Some(m) && m@ == f.mac@))
    &&& (f.mac@.len() == 0 && f.backend != NetworkBackend::Tap ==> r.mac is None)
    &&& (f.mac@.len() == 0 && f.backend == NetworkBackend::Tap ==> (r.mac matches Some(m)
                && exists|b: [u8; 6]| m@ == mac_text(b@)))
}

/// `n` is the form `o` after its check, and `valid` is the check's outcome.
pub open spec fn new_network_validated(o: NewNetwork, n: NewNetwork, valid: bool) -> bool {
    &&& valid == mac_field_valid(o.mac@)
    &&& (!valid ==> opt_view(n.mac_error) == Some("Unvalid MAC address"@))
    &&& (valid ==> n.mac_error == o.mac_error)
    &&& n.section == o.section
    &&& n.backend == o.backend
    &&& n.nic == o.nic
    &&& n.mac == o.mac
    &&& n.mac_cursor == o.mac_cursor
}

/// `n` is the form `o` after `key` (`is_root` offers the tap backend), and
/// `to_field` says whether the key belongs to the MAC address field.
pub open spec fn new_network_after(o: NewNetwork, n: NewNetwork, key: Key, is_root: bool, to_field: bool) -> bool {
    &&& to_field == (!is_down(key) && !is_up(key) && o.section == Section::Mac)
    &&& if to_field {
        typed(o.mac, o.mac_cursor, n.mac, n.mac_cursor, key)
    } else {
        untouched(o.mac, o.mac_cursor, n.mac, n.mac_cursor)
    }
    &&& n.mac_error == o.mac_error
    &&& (is_down(key) ==> n.section == match o.section {
                Section::Backend => Section::Nic,
                Section::Nic => Section::Mac,
                Section::Mac => Section::Backend,
            })
    &&& (is_up(key) ==> n.section == match o.section {
                Section::Backend => Section::Mac,
                Section::Nic => Section::Backend,
                Section::Mac => Section::Nic,
            })
    &&& (!is_down(key) && !is_up(key) ==> n.section == o.section)
    &&& (!is_down(key) && !is_up(key) && o.section == Section::Backend
                && is_right(key) ==> n.backend == match o.backend {
                NetworkBackend::Passt => NetworkBackend::User,
                NetworkBackend::User => if is_root {
                    NetworkBackend::Tap
                } else {
                    NetworkBackend::Passt
                },
                NetworkBackend::Tap => NetworkBackend::Passt,
            })
    &&& (!is_down(key) && !is_up(key) && o.section == Section::Backend
                && is_left(key) ==> n.backend == match o.backend {
                NetworkBackend::Passt => if is_root {
                    NetworkBackend::Tap
                } else {
                    NetworkBackend::User
                },
                NetworkBackend::User => NetworkBackend::Passt,
                NetworkBackend::Tap => NetworkBackend::User,
            })
    &&& (!(!is_down(key) && !is_up(key) && o.section == Section::Backend && (
            is_right(key) || is_left(key))) ==> n.backend == o.backend)
    &&& (!is_down(key) && !is_up(key) && o.section == Section::Nic && is_right(key)
                ==> n.nic == match o.nic {
                Nic::Virtio => Nic::E1000,
                Nic::E1000 => Nic::RTL8139,
                Nic::RTL8139 => Nic::Virtio,
            })
    &&& (!is_down(key) && !is_up(key) && o.section == Section::Nic && is_left(key)
                ==> n.nic == match o.nic {
                Nic::Virtio => Nic::RTL8139,
                Nic::E1000 => Nic::Virtio,
                Nic::RTL8139 => Nic::E1000,
            })
    &&& (!(!is_down(key) && !is_up(key) && o.section == Section::Nic && (is_right(
                key,
            ) || is_left(key))) ==> n.nic == o.nic)
}

impl NewNetwork {
    /// A user-mode network with a virtio card and an automatic MAC address.
    pub fn new() -> (r: Self)
        ensures
            r.section == Section::Backend,
            r.backend == NetworkBackend::User,
            r.nic == Nic::Virtio,
            r.mac@ == Seq::<char>::empty(),
            r.mac_cursor == 0,
            r.mac_error is None,
    {
        NewNetwork {
            section: Section::Backend,
            backend: NetworkBackend::User,
            nic: Nic::Virtio,
            mac: String::new(),
            mac_cursor: 0,
            mac_error: None,
        }
    }

    /// The typed MAC address, if one was typed.
    pub fn mac(&self) -> (r: Option<String>)
        ensures
            match r {
                Some(m) => self.mac@.len() > 0 && m@ == self.mac@,
                None => self.mac@.len() == 0,
            },
    {
        if self.mac.as_str().is_empty() {
            None
        } else {
            Some(self.mac.clone())
        }
    }

    /// The network the form describes; a tap network without a typed MAC gets a
    /// random one.
    pub fn build(&self) -> (r: Network)
        ensures
            network_built_from(*self, r),
    {
        let mac = self.mac();
        match (self.backend, mac) {
            (NetworkBackend::Tap, None) => Network::new(
                self.backend,
                self.nic,
                Vec::new(),
                Some(random_mac()),
            ),
            (_, mac) => Network::new(self.backend, self.nic, Vec::new(), mac),
        }
    }

    /// Checks the typed MAC address and records the error; true when it is accepted.
    pub fn validate(&mut self) -> (valid: bool)
        ensures
            new_network_validated(*old(self), *final(self), valid),
    {
        let m = self.mac.as_str();
        let n = m.unicode_len();
        let mut valid = true;
        if n != 0 {
            if m.len() != 17 {
                valid = false;
            } else {
                let mut i: usize = 0;
                let mut stop = false;
                while i < n && !stop
                    invariant
                        i <= n,
                        n == m@.len(),
                        m@ == old(self).mac@,
                        encode_utf8(m@).len() as usize == 17,
                        forall|k: int| 0 <= k < i && k % 3 == 2 ==> m@[k] == ':',
                        forall|k: int| 0 <= k < i && k % 3 != 2 ==> is_hex_digit(#[trigger] m@[k]),
                        !stop ==> valid,
                        stop ==> i < n,
                        stop ==> (valid <==> i % 3 == 2),
                        stop && i % 3 == 2 ==> m@[i as int] != ':',
                        stop && i % 3 != 2 ==> !is_hex_digit(m@[i as int]),
                    decreases n - i + (if stop {
                        0int
                    } else {
                        1int
                    }),
                {
                    let c = m.get_char(i);
                    if i % 3 == 2 {
                        if c != ':' {
                            stop = true;
                        } else {
                            i = i + 1;
                        }
                    } else {
                        let hex = ('0' <= c && c <= '9') || ('a' <= c && c <= 'f') || ('A' <= c
                            && c <= 'F');
                        if !hex {
                            valid = false;
                            stop = true;
                        } else {
                            i = i + 1;
                        }
                    }
                }
                proof {
                    let mm = m@;
                    if valid {
                        assert forall|k: int|
                            #![trigger mm[k]]
                            0 <= k < mm.len() && k % 3 != 2 && (forall|j: int|
                                0 <= j < k && j % 3 == 2 ==> mm[j] == ':') implies is_hex_digit(
                            mm[k],
                        ) by {
                            if k >= i {
                                assert(stop);
                                assert(mm[i as int] != ':');
                            }
                        }
                    } else {
                        assert(mm[i as int] == mm[i as int]);
                    }
                }
            }
        }
        if !valid {
            self.mac_error = Some(String::from_str("Unvalid MAC address"));
        }
        valid
    }

    /// Reacts to a key: moves between sections, or cycles the backend or the
    /// card; other keys edit the MAC address field when it has the focus.
    /// Returns true when the key went to the MAC address field.
    /// `is_root` tells whether kudu runs as root, which offers the tap backend.
    pub fn handle_key_events(&mut self, key: Key, is_root: bool) -> (to_field: bool)
        ensures
            new_network_after(*old(self), *final(self), key, is_root, to_field),
    {
        if key.down() {
            self.section = match self.section {
                Section::Backend => Section::Nic,
                Section::Nic => Section::Mac,
                Section::Mac => Section::Backend,
            };
            return false;
        }
        if key.up() {
            self.section = match self.section {
                Section::Backend => Section::Mac,
                Section::Nic => Section::Backend,
                Section::Mac => Section::Nic,
            };
            return false;
        }
        match self.section {
            Section::Backend => {
                if key.right() {
                    self.backend = match self.backend {
                        NetworkBackend::Passt => NetworkBackend::User,
                        NetworkBackend::User => if is_root {
                            NetworkBackend::Tap
                        } else {
                            NetworkBackend::Passt
                        },
                        NetworkBackend::Tap => NetworkBackend::Passt,
                    };
                } else if key.left() {
                    self.backend = match self.backend {
                        NetworkBackend::Passt => if is_root {
                            NetworkBackend::Tap
                        } else {
                            NetworkBackend::User
                        },
                        NetworkBackend::User => NetworkBackend::Passt,
                        NetworkBackend::Tap => NetworkBackend::User,
                    };
                }
                false
            },
            Section::Nic => {
                if key.right() {
                    self.nic = match self.nic {
                        Nic::Virtio => Nic::E1000,
                        Nic::E1000 => Nic::RTL8139,
                        Nic::RTL8139 => Nic::Virtio,
                    };
                } else if key.left() {
                    self.nic = match self.nic {
                        Nic::Virtio => Nic::RTL8139,
                        Nic::E1000 => Nic::Virtio,
                        Nic::RTL8139 => Nic::E1000,
                    };
                }
                false
            },
            Section::Mac => {
                edit_field(&mut self.mac, &mut self.mac_cursor, key);
                true
            },
        }
    }
}

/// The networks of a new VM, the highlighted one, and the form of a new one
/// while it is open.
#[derive(Debug)]
pub struct NetworkBuilder {
    pub networks: Vec<Network>,
    pub new_network: Option<NewNetwork>,
    pub selected: Option<usize>,
}

/// The form as it opens.
pub open spec fn fresh_network_form(f: NewNetwork) -> bool {
    &&& f.section == Section::Backend
    &&& f.backend == NetworkBackend::User
    &&& f.nic == Nic::Virtio
    &&& f.mac@ == Seq::<char>::empty()
    &&& f.mac_cursor == 0
    &&& f.mac_error is None
}

impl Default for NetworkBuilder {
    /// One user-mode network, highlighted (see `NetworkBuilder::new`).
    fn default() -> (r: Self)
        ensures
            r.networks@.len() == 1,
            r.networks@[0]@.backend == NetworkBackend::User,
            r.networks@[0]@.nic == Nic::Virtio,
            r.networks@[0]@.mac is None,
            r.networks@[0]@.port_mappings.len() == 0,
            r.selected == Some(0usize),
            r.new_network is None,
            r.wf(),
    {
        NetworkBuilder::new()
    }
}

impl NetworkBuilder {
    /// One user-mode network, highlighted, and no form open.
    pub fn new() -> (r: Self)
        ensures
            r.networks@.len() == 1,
            r.networks@[0]@.backend == NetworkBackend::User,
            r.networks@[0]@.nic == Nic::Virtio,
            r.networks@[0]@.mac is None,
            r.networks@[0]@.port_mappings.len() == 0,
            r.selected == Some(0usize),
            r.new_network is None,
            r.wf(),
    {
        let mut networks: Vec<Network> = Vec::new();
        networks.push(Network::default());
        NetworkBuilder { networks, new_network: None, selected: Some(0) }
    }

    /// The highlight is on a network, and there is one when there are networks.
    pub open spec fn wf(&self) -> bool {
        selection_wf(self.selected, self.networks@.len())
    }

    /// The form of a new network is open.
    pub fn new_network_popup(&self) -> (r: bool)
        ensures
            r == self.new_network is Some,
    {
        self.new_network.is_some()
    }

    /// A copy of the networks.
    pub fn networks(&self) -> (r: Vec<Network>)
        ensures
            network_views(r@) == network_views(self.networks@),
    {
        duplicate_networks(&self.networks)
    }

    /// Reacts to a key (`is_root` offers the tap backend in the form). While
    /// the form is open, Esc closes it, Enter adds its network when it is
    /// valid and other keys go to it; otherwise the vertical keys move the
    /// highlight, `d` removes the highlighted network and `n` opens the form.
    /// Returns true when the key belongs to the form's MAC address field.
    pub fn handle_key_events(&mut self, key: Key, is_root: bool) -> (to_field: bool)
        requires
            old(self).wf(),
            old(self).networks@.len() < usize::MAX,
        ensures
            final(self).wf(),
            match old(self).new_network {
                Some(form) => if key == Key::Esc {
                    &&& final(self).new_network is None
                    &&& final(self).networks == old(self).networks
                    &&& final(self).selected == old(self).selected
                    &&& !to_field
                } else if key == Key::Enter {
                    &&& !to_field
                    &&& mac_field_valid(form.mac@) ==> {
                        &&& final(self).new_network is None
                        &&& final(self).networks@.len() == old(self).networks@.len() + 1
                        &&& final(self).networks@.drop_last() == old(self).networks@
                        &&& network_built_from(form, final(self).networks@.last())
                        &&& final(self).selected == match old(self).selected {
                            Some(i) => Some(i),
                            None => Some(0usize),
                        }
                    }
                    &&& !mac_field_valid(form.mac@) ==> {
                        &&& (final(self).new_network matches Some(f) && new_network_validated(
                            form,
                            f,
                            false,
                        ))
                        &&& final(self).networks == old(self).networks
                        &&& final(self).selected == old(self).selected
                    }
                } else {
                    &&& (final(self).new_network matches Some(f) && new_network_after(
                        form,
                        f,
                        key,
                        is_root,
                        to_field,
                    ))
                    &&& final(self).networks == old(self).networks
                    &&& final(self).selected == old(self).selected
                },
                None => {
                    &&& !to_field
                    &&& if is_down(key) {
                        &&& final(self).selected == match old(self).selected {
                            Some(i) => Some(row_below(i, old(self).networks@.len())),
                            None => None,
                        }
                        &&& final(self).networks == old(self).networks
                        &&& final(self).new_network is None
                    } else if is_up(key) {
                        &&& final(self).selected == match old(self).selected {
                            Some(i) => Some(row_above(i)),
                            None => None,
                        }
                        &&& final(self).networks == old(self).networks
                        &&& final(self).new_network is None
                    } else if key == Key::Char('d') && old(self).selected is Some {
                        let i = old(self).selected->0;
                        &&& final(self).networks@ == old(self).networks@.remove(i as int)
                        &&& final(self).selected == after_removal(i, final(self).networks@.len())
                        &&& final(self).new_network is None
                    } else {
                        &&& final(self).networks == old(self).networks
                        &&& final(self).selected == old(self).selected
                        &&& if key == Key::Char('n') {
                            final(self).new_network matches Some(f) && fresh_network_form(f)
                        } else {
                            final(self).new_network is None
                        }
                    }
                },
            },
    {
        if self.new_network.is_some() {
            let mut form = self.new_network.take().unwrap();
            if key == Key::Esc {
                return false;
            }
            if key == Key::Enter {
                if form.validate() {
                    let n = form.build();
                    self.networks.push(n);
                    if self.selected.is_none() {
                        self.selected = Some(0);
                    }
                } else {
                    self.new_network = Some(form);
                }
                return false;
            }
            let to_field = form.handle_key_events(key, is_root);
            self.new_network = Some(form);
            return to_field;
        }
        if key.down() {
            self.selected = select_next(self.selected, self.networks.len());
        } else if key.up() {
            self.selected = select_prev(self.selected);
        } else if key == Key::Char('d') {
            match self.selected {
                Some(i) => {
                    self.networks.remove(i);
                    self.selected = if self.networks.len() > 0 {
                        Some(i.saturating_sub(1))
                    } else {
                        None
                    };
                },
                None => {},
            }
        } else if key == Key::Char('n') {
            self.new_network = Some(NewNetwork::new());
        }
        false
    }
}

} // verus!
