//! The port forwarding section: the rules of all the VM's networks as one
//! list, and the form that adds a rule.
use vstd::prelude::*;

use crate::key::{Key, is_down, is_up};
use crate::network::port_forwarding::{
    MappingBuilder,
    PortMapping,
    mapping_form_after,
    mapping_key_to_field,
    opt_view,
    port_field_error,
};
use crate::network::{
    Network,
    NetworkView,
    add_mapping,
    network_views,
    remove_mapping,
    with_mapping_added,
    with_mapping_removed,
};
use crate::selection::{after_removal, row_above, row_below, select_next, select_prev};
use crate::text::parse_unsigned;

verus! {

/// The rules of `vs`, network after network, each with its network's identifier.
pub open spec fn network_mappings(vs: Seq<NetworkView>) -> Seq<(Seq<char>, PortMapping)>
    decreases vs.len(),
{
    if vs.len() == 0 {
        Seq::empty()
    } else {
        network_mappings(vs.drop_last()) + vs.last().port_mappings.map_values(
            |m: PortMapping| (vs.last().id, m),
        )
    }
}

/// A list of (network identifier, rule) pairs as plain values.
pub open spec fn mapping_views(v: Seq<(String, PortMapping)>) -> Seq<(Seq<char>, PortMapping)> {
    v.map_values(|p: (String, PortMapping)| (p.0@, p.1))
}

/// The rules of `networks`, network after network, each with its network's
/// identifier.
pub fn all_mappings(networks: &Vec<Network>) -> (r: Vec<(String, PortMapping)>)
    ensures
        mapping_views(r@) == network_mappings(network_views(networks@)),
{
        let ghost vs = network_views(networks@);
        let mut out: Vec<(String, PortMapping)> = Vec::new();
        let mut i: usize = 0;
        while i < networks.len()
            invariant
                i <= networks@.len(),
                vs == network_views(networks@),
                mapping_views(out@) == network_mappings(vs.take(i as int)),
            decreases networks@.len() - i,
        {
            let n = &networks[i];
            let ghost head = mapping_views(out@);
            let mut j: usize = 0;
            while j < n.port_mappings.len()
                invariant
                    j <= n.port_mappings@.len(),
                    mapping_views(out@) == head + n.port_mappings@.take(j as int).map_values(
                        |m: PortMapping| (n.id@, m),
                    ),
                decreases n.port_mappings@.len() - j,
            {
                let ghost before = out@;
                let id = n.id.clone();
                let m = n.port_mappings[j];
                out.push((id, m));
                assert(out@ == before.push((id, m)));
                assert(mapping_views(out@) =~= mapping_views(before).push((n.id@, m)));
                assert(n.port_mappings@.take(j + 1).map_values(|m: PortMapping| (n.id@, m))
                    =~= n.port_mappings@.take(j as int).map_values(|m: PortMapping| (n.id@, m)).push(
                    (n.id@, m),
                ));
                j = j + 1;
            }
            assert(n.port_mappings@.take(j as int) =~= n.port_mappings@);
            assert(vs.take(i + 1).drop_last() =~= vs.take(i as int));
            i = i + 1;
        }
        assert(vs.take(i as int) =~= vs);
        out
}

/// The rules shown, the highlighted one, and the form while it is open.
#[derive(Debug)]
pub struct PortForwarding {
    pub mappings: Vec<(String, PortMapping)>,
    pub selected: Option<usize>,
    pub new_mapping: Option<MappingBuilder>,
}

/// The form as it opens.
pub open spec fn fresh_mapping_form(f: MappingBuilder) -> bool {
    &&& f.section == crate::network::port_forwarding::MappingSection::Network
    &&& f.guest_port@ == Seq::<char>::empty()
    &&& f.host_port@ == Seq::<char>::empty()
    &&& f.guest_port_cursor == 0
    &&& f.host_port_cursor == 0
    &&& f.guest_port_error is None
    &&& f.host_port_error is None
    &&& f.protocol == crate::network::port_forwarding::Protocol::TCP
    &&& f.selected_network == 0
}

/// `n` and `nns` are the section `o` and the networks `ons` after `key`, and
/// `to_field` says whether the key belongs to one of the form's port fields.
pub open spec fn port_forwarding_after(o: PortForwarding, n: PortForwarding, ons: Seq<Network>, nns: Seq<Network>, key: Key, to_field: bool) -> bool {
    &&& nns.len() == ons.len()
    &&& (n.new_mapping matches Some(f) ==> f.selected_network < nns.len())
    &&& (match o.new_mapping {
                Some(form) => if key == Key::Esc {
                    &&& n.new_mapping is None
                    &&& n.mappings@ == o.mappings@
                    &&& n.selected == o.selected
                    &&& nns == ons
                    &&& !to_field
                } else if key == Key::Enter {
                    let ok = port_field_error(form.host_port@, "Host Port"@) is None
                        && port_field_error(form.guest_port@, "Guest Port"@) is None;
                    let m = PortMapping {
                        guest_port: parse_unsigned(form.guest_port@, 65535)->0 as u16,
                        host_port: parse_unsigned(form.host_port@, 65535)->0 as u16,
                        protocol: form.protocol,
                    };
                    let id = ons[form.selected_network as int].id@;
                    &&& !to_field
                    &&& ok ==> {
                        &&& n.new_mapping is None
                        &&& network_views(nns) == with_mapping_added(
                            network_views(ons),
                            id,
                            m,
                        )
                        &&& mapping_views(n.mappings@) == network_mappings(
                            network_views(nns),
                        )
                        &&& n.selected == match o.selected {
                            Some(i) => Some(i),
                            None => Some(0usize),
                        }
                    }
                    &&& !ok ==> {
                        &&& (n.new_mapping matches Some(f) && f.section == form.section
                            && f.guest_port == form.guest_port && f.host_port == form.host_port
                            && f.protocol == form.protocol && f.selected_network
                            == form.selected_network && opt_view(f.host_port_error)
                            == port_field_error(form.host_port@, "Host Port"@) && opt_view(
                            f.guest_port_error,
                        ) == port_field_error(form.guest_port@, "Guest Port"@))
                        &&& n.mappings@ == o.mappings@
                        &&& n.selected == o.selected
                        &&& nns == ons
                    }
                } else {
                    &&& to_field == mapping_key_to_field(form.section, key)
                    &&& (n.new_mapping matches Some(f) && mapping_form_after(
                        form,
                        f,
                        key,
                        ons.len(),
                    ))
                    &&& n.mappings@ == o.mappings@
                    &&& n.selected == o.selected
                    &&& nns == ons
                },
                None => {
                    &&& !to_field
                    &&& if is_down(key) {
                        &&& n.selected == match o.selected {
                            Some(i) => Some(row_below(i, o.mappings@.len())),
                            None => None,
                        }
                        &&& n.mappings@ == o.mappings@
                        &&& nns == ons
                        &&& n.new_mapping is None
                    } else if is_up(key) {
                        &&& n.selected == match o.selected {
                            Some(i) => Some(row_above(i)),
                            None => None,
                        }
                        &&& n.mappings@ == o.mappings@
                        &&& nns == ons
                        &&& n.new_mapping is None
                    } else if key == Key::Char('d') && o.selected is Some {
                        let i = o.selected->0;
                        let (id, m) = mapping_views(o.mappings@)[i as int];
                        &&& network_views(nns) == with_mapping_removed(
                            network_views(ons),
                            id,
                            m,
                        )
                        &&& mapping_views(n.mappings@) == network_mappings(
                            network_views(nns),
                        )
                        &&& n.selected == after_removal(
                            i,
                            n.mappings@.len(),
                        )
                        &&& n.new_mapping is None
                    } else {
                        &&& n.mappings@ == o.mappings@
                        &&& n.selected == o.selected
                        &&& nns == ons
                        &&& if key == Key::Char('n') && ons.len() > 0 {
                            n.new_mapping matches Some(f) && fresh_mapping_form(f)
                        } else {
                            n.new_mapping is None
                        }
                    }
                },
            })
}

impl PortForwarding {
    /// No rule shown, nothing highlighted, no form open.
    pub fn new() -> (r: Self)
        ensures
            r.mappings@.len() == 0,
            r.selected is None,
            r.new_mapping is None,
    {
        PortForwarding { mappings: Vec::new(), selected: None, new_mapping: None }
    }

    /// The form of a new rule is open.
    pub fn new_mapping_popup(&self) -> (r: bool)
        ensures
            r == self.new_mapping is Some,
    {
        self.new_mapping.is_some()
    }

    /// Shows the rules of `networks` again.
    pub fn refresh(&mut self, networks: &Vec<Network>)
        ensures
            mapping_views(final(self).mappings@) == network_mappings(network_views(networks@)),
            final(self).selected == old(self).selected,
            final(self).new_mapping == old(self).new_mapping,
    {
        self.mappings = all_mappings(networks);
    }

    /// The key can be handled without a fault: the open form points at one of
    /// the `n` networks, and a key that moves the highlight down or removes
    /// the highlighted rule finds the highlight on a shown rule.
    pub open spec fn key_ok(&self, key: Key, n: nat) -> bool {
        match self.new_mapping {
            Some(f) => f.selected_network < n,
            None => {
                &&& (is_down(key) && self.selected is Some) ==> self.mappings@.len() > 0
                &&& (!is_down(key) && !is_up(key) && key == Key::Char('d')) ==> (
                self.selected matches Some(i) ==> i < self.mappings@.len())
            },
        }
    }

    /// Reacts to a key, with the VM's networks. While the form is open, Esc
    /// closes it, Enter adds its rule to the chosen network when it is valid
    /// and other keys go to the form; otherwise the vertical keys move the
    /// highlight, `d` removes the highlighted rule (every rule equal to it in
    /// its network) and `n` opens the form when there is a network. After a
    /// change the list shows the networks' rules again. Returns true when the
    /// key belongs to one of the form's port fields.
    pub fn handle_key_events(&mut self, key: Key, networks: &mut Vec<Network>) -> (to_field: bool)
        requires
            old(self).key_ok(key, old(networks)@.len()),
        ensures
            port_forwarding_after(*old(self), *final(self), old(networks)@, final(networks)@, key, to_field),
    {
        if self.new_mapping.is_some() {
            let mut form = self.new_mapping.take().unwrap();
            if key == Key::Esc {
                return false;
            }
            if key == Key::Enter {
                if form.validate() {
                    let (id, m) = form.build(networks);
                    add_mapping(networks, id.as_str(), m);
                    self.refresh(networks);
                    if self.selected.is_none() {
                        self.selected = Some(0);
                    }
                } else {
                    self.new_mapping = Some(form);
                }
                return false;
            }
            let to_field = form.handle_key_events(key, networks.len());
            self.new_mapping = Some(form);
            return to_field;
        }
        if key.down() {
            self.selected = select_next(self.selected, self.mappings.len());
        } else if key.up() {
            self.selected = select_prev(self.selected);
        } else if key == Key::Char('d') {
            match self.selected {
                Some(i) => {
                    let (id, m) = self.mappings.remove(i);
                    remove_mapping(networks, id.as_str(), m);
                    self.refresh(networks);
                    self.selected = if self.mappings.len() > 0 {
                        Some(i.saturating_sub(1))
                    } else {
                        None
                    };
                },
                None => {},
            }
        } else if key == Key::Char('n') && networks.len() > 0 {
            self.new_mapping = Some(MappingBuilder::new());
        }
        false
    }
}

} // verus!
