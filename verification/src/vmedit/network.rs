//! The network section of the edit form: the VM's networks, those added and
//! those marked for removal.
use vstd::prelude::*;

use crate::key::{Key, is_down, is_up};
use crate::network::builder::{
    NewNetwork,
    fresh_network_form,
    mac_field_valid,
    network_built_from,
    new_network_after,
    new_network_validated,
};
use crate::network::{
    Network,
    NetworkView,
    contains_network,
    duplicate_networks,
    network_views,
    networks_without,
    retain_networks,
};
use crate::selection::{row_above, row_below, select_next, select_prev};

verus! {

/// The section: the networks the VM had when the form opened, those added,
/// those marked for removal, the highlighted row (the VM's networks first,
/// then the added ones) and the form of a new network while it is open.
#[derive(Debug)]
pub struct NetworkEdit {
    pub added_networks: Vec<Network>,
    pub deleted_networks: Vec<Network>,
    pub new_network: Option<NewNetwork>,
    pub selected: Option<usize>,
    pub initial_networks: Vec<Network>,
}

/// `n` and `nns` are the section `o` and the VM's networks `ons` after `key`
/// (`is_root` offers the tap backend), and `to_field` says whether the key
/// belongs to the form's MAC address field.
pub open spec fn network_edit_after(o: NetworkEdit, n: NetworkEdit, ons: Seq<Network>, nns: Seq<Network>, key: Key, is_root: bool, to_field: bool) -> bool {
    &&& n.initial_networks == o.initial_networks
    &&& (match o.new_network {
                Some(form) => if key == Key::Esc {
                    &&& n.new_network is None
                    &&& n.added_networks == o.added_networks
                    &&& n.deleted_networks == o.deleted_networks
                    &&& n.selected == o.selected
                    &&& nns == ons
                    &&& !to_field
                } else if key == Key::Enter {
                    &&& !to_field
                    &&& n.deleted_networks == o.deleted_networks
                    &&& mac_field_valid(form.mac@) ==> {
                        &&& n.new_network is None
                        &&& n.added_networks@.len() == o.added_networks@.len()
                            + 1
                        &&& n.added_networks@.drop_last() == o.added_networks@
                        &&& network_built_from(form, n.added_networks@.last())
                        &&& network_views(nns) == network_views(ons).push(
                            n.added_networks@.last()@,
                        )
                        &&& n.selected == match o.selected {
                            Some(i) => Some(i),
                            None => Some(0usize),
                        }
                    }
                    &&& !mac_field_valid(form.mac@) ==> {
                        &&& (n.new_network matches Some(f) && new_network_validated(
                            form,
                            f,
                            false,
                        ))
                        &&& n.added_networks == o.added_networks
                        &&& n.selected == o.selected
                        &&& nns == ons
                    }
                } else {
                    &&& (n.new_network matches Some(f) && new_network_after(
                        form,
                        f,
                        key,
                        is_root,
                        to_field,
                    ))
                    &&& n.added_networks == o.added_networks
                    &&& n.deleted_networks == o.deleted_networks
                    &&& n.selected == o.selected
                    &&& nns == ons
                },
                None => {
                    &&& !to_field
                    &&& if is_down(key) {
                        &&& n.selected == match o.selected {
                            Some(i) => Some(row_below(i, o.rows())),
                            None => None,
                        }
                        &&& n.added_networks == o.added_networks
                        &&& n.deleted_networks == o.deleted_networks
                        &&& nns == ons
                        &&& n.new_network is None
                    } else if is_up(key) {
                        &&& n.selected == match o.selected {
                            Some(i) => Some(row_above(i)),
                            None => None,
                        }
                        &&& n.added_networks == o.added_networks
                        &&& n.deleted_networks == o.deleted_networks
                        &&& nns == ons
                        &&& n.new_network is None
                    } else if key == Key::Char('d') && o.selected is Some {
                        let i = o.selected->0;
                        let k = o.initial_networks@.len();
                        &&& n.selected == o.selected
                        &&& n.new_network is None
                        &&& if i < k {
                            let v = o.initial_networks@[i as int]@;
                            &&& network_views(n.deleted_networks@) == if network_views(
                                o.deleted_networks@,
                            ).contains(v) {
                                network_views(o.deleted_networks@)
                            } else {
                                network_views(o.deleted_networks@).push(v)
                            }
                            &&& n.added_networks == o.added_networks
                            &&& network_views(nns) == networks_without(
                                network_views(ons),
                                v,
                            )
                        } else {
                            let j = i - k;
                            let v = o.added_networks@[j]@;
                            &&& n.added_networks@ == o.added_networks@.remove(j)
                            &&& n.deleted_networks == o.deleted_networks
                            &&& network_views(nns) == networks_without(
                                network_views(ons),
                                v,
                            )
                        }
                    } else if key == Key::Char('u') && o.selected is Some
                        && o.selected->0 < o.initial_networks@.len() {
                        let v = o.initial_networks@[o.selected->0 as int]@;
                        &&& network_views(n.deleted_networks@) == networks_without(
                            network_views(o.deleted_networks@),
                            v,
                        )
                        &&& network_views(nns) == network_views(ons).push(
                            v,
                        )
                        &&& n.added_networks == o.added_networks
                        &&& n.selected == o.selected
                        &&& n.new_network is None
                    } else {
                        &&& n.added_networks == o.added_networks
                        &&& n.deleted_networks == o.deleted_networks
                        &&& n.selected == o.selected
                        &&& nns == ons
                        &&& if key == Key::Char('n') && ons.len() > 0 {
                            n.new_network matches Some(f) && fresh_network_form(f)
                        } else {
                            n.new_network is None
                        }
                    }
                },
            })
}

impl NetworkEdit {
    /// The section for a VM whose networks are `networks`, the first one
    /// highlighted.
    pub fn new(networks: &Vec<Network>) -> (r: Self)
        ensures
            network_views(r.initial_networks@) == network_views(networks@),
            r.added_networks@.len() == 0,
            r.deleted_networks@.len() == 0,
            r.new_network is None,
            r.selected == if networks@.len() == 0 {
                None
            } else {
                Some(0usize)
            },
    {
        let selected = if networks.len() == 0 {
            None
        } else {
            Some(0)
        };
        NetworkEdit {
            added_networks: Vec::new(),
            deleted_networks: Vec::new(),
            new_network: None,
            selected,
            initial_networks: duplicate_networks(networks),
        }
    }

    /// The form of a new network is open.
    pub fn new_network_popup(&self) -> (r: bool)
        ensures
            r == self.new_network is Some,
    {
        self.new_network.is_some()
    }

    /// The number of rows: the VM's networks and the added ones.
    pub open spec fn rows(&self) -> nat {
        self.initial_networks@.len() + self.added_networks@.len()
    }

    /// The key can be handled without a fault: moving the highlight down
    /// finds rows, and removing finds the highlight on one.
    pub open spec fn key_ok(&self, key: Key) -> bool {
        self.new_network is None ==> {
            &&& (is_down(key) && self.selected is Some) ==> self.rows() > 0
            &&& (!is_down(key) && !is_up(key) && key == Key::Char('d') && self.selected is Some)
                ==> self.selected->0 < self.rows()
        }
    }

    /// Reacts to a key, with the VM's networks `networks` (`is_root` offers
    /// the tap backend). While the form is open, Esc closes it, Enter adds its
    /// network when it is valid and other keys go to it. Otherwise the
    /// vertical keys move the highlight; `d` marks the highlighted network of
    /// the VM for removal, or drops the highlighted added one, and takes it
    /// out of `networks`; `u` takes back the removal of the highlighted
    /// network of the VM and puts it back at the end of `networks`; `n` opens
    /// the form when there is a network. Returns true when the key belongs to
    /// the form's MAC address field.
    pub fn handle_key_events(&mut self, key: Key, is_root: bool, networks: &mut Vec<Network>) -> (to_field:
        bool)
        requires
            old(self).key_ok(key),
            old(self).rows() < usize::MAX,
            old(networks)@.len() < usize::MAX,
        ensures
            network_edit_after(*old(self), *final(self), old(networks)@, final(networks)@, key, is_root, to_field),
    {
        if self.new_network.is_some() {
            let mut form = self.new_network.take().unwrap();
            if key == Key::Esc {
                return false;
            }
            if key == Key::Enter {
                let ghost form0 = form;
                if form.validate() {
                    let n = form.build();
                    assert(network_built_from(form0, n));
                    let ghost before = networks@;
                    networks.push(n.duplicate());
                    assert(network_views(networks@) =~= network_views(before).push(n@));
                    let ghost added0 = self.added_networks@;
                    self.added_networks.push(n);
                    assert(self.added_networks@.drop_last() =~= added0);
                    if self.selected.is_none() {
                        self.selected = Some(0);
                    }
                } else {
                    self.new_network = Some(form);
                }
                return false;
            }
            let to_field = form.handle_key_events(key, is_root);
            self.new_network = Some(form);
            return to_field;
        }
        let rows = self.initial_networks.len() + self.added_networks.len();
        if key.down() {
            self.selected = select_next(self.selected, rows);
        } else if key.up() {
            self.selected = select_prev(self.selected);
        } else if key == Key::Char('d') {
            match self.selected {
                Some(i) => {
                    if i < self.initial_networks.len() {
                        if !contains_network(&self.deleted_networks, &self.initial_networks[i]) {
                            let ghost before = self.deleted_networks@;
                            self.deleted_networks.push(self.initial_networks[i].duplicate());
                            assert(network_views(self.deleted_networks@) =~= network_views(
                                before,
                            ).push(self.initial_networks@[i as int]@));
                        }
                        retain_networks(networks, &self.initial_networks[i]);
                    } else {
                        let j = i - self.initial_networks.len();
                        let n = self.added_networks.remove(j);
                        retain_networks(networks, &n);
                    }
                },
                None => {},
            }
        } else if key == Key::Char('u') {
            match self.selected {
                Some(i) => {
                    if i < self.initial_networks.len() {
                        retain_networks(&mut self.deleted_networks, &self.initial_networks[i]);
                        let ghost before = networks@;
                        networks.push(self.initial_networks[i].duplicate());
                        assert(network_views(networks@) =~= network_views(before).push(
                            self.initial_networks@[i as int]@,
                        ));
                    }
                },
                None => {},
            }
        } else if key == Key::Char('n') && networks.len() > 0 {
            self.new_network = Some(NewNetwork::new());
        }
        false
    }
}

} // verus!
