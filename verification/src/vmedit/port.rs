//! The port forwarding section of the edit form: the rules of the VM's
//! networks, the rules added and those marked for removal.
use vstd::prelude::*;

use crate::key::{Key, is_down, is_up};
use crate::network::port_forwarding::{
    MappingBuilder,
    PortMapping,
    mapping_form_after,
    mapping_key_to_field,
    opt_view,
    port_field_error,
};
use crate::network::{
    Network,
    NetworkView,
    add_mapping,
    network_views,
    remove_mapping,
    with_mapping_added,
    with_mapping_removed,
};
use crate::selection::{row_above, row_below, select_next, select_prev};
use crate::text::{parse_unsigned, str_equal};
use crate::vmbuilder::port::{all_mappings, fresh_mapping_form, mapping_views, network_mappings};

verus! {

/// The section: the rules added and those marked for removal, each with its
/// network's identifier, the highlighted row (the rules of the VM's networks
/// first, then the added ones) and the form while it is open.
#[derive(Debug)]
pub struct PortForwarding {
    pub added_port_mappings: Vec<(String, PortMapping)>,
    pub deleted_port_mappings: Vec<(String, PortMapping)>,
    pub new_mapping: Option<MappingBuilder>,
    pub selected: Option<usize>,
}

/// `ms` without the pairs equal to `p`.
pub open spec fn pairs_without(ms: Seq<(Seq<char>, PortMapping)>, p: (Seq<char>, PortMapping)) -> Seq<
    (Seq<char>, PortMapping),
> {
    ms.filter(|x: (Seq<char>, PortMapping)| x != p)
}

/// The pairs of `ms` whose network is one of `vs`.
pub open spec fn pairs_of_networks(ms: Seq<(Seq<char>, PortMapping)>, vs: Seq<NetworkView>) -> Seq<
    (Seq<char>, PortMapping),
> {
    ms.filter(|x: (Seq<char>, PortMapping)| exists|i: int| 0 <= i < vs.len() && vs[i].id == x.0)
}

/// `vs` with each pair of `adds`, in order, added to its network.
pub open spec fn with_mappings_added(vs: Seq<NetworkView>, adds: Seq<(Seq<char>, PortMapping)>) -> Seq<
    NetworkView,
>
    decreases adds.len(),
{
    if adds.len() == 0 {
        vs
    } else {
        with_mapping_added(with_mappings_added(vs, adds.drop_last()), adds.last().0, adds.last().1)
    }
}

/// `vs` with each pair of `dels`, in order, taken out of its network.
pub open spec fn with_mappings_removed(vs: Seq<NetworkView>, dels: Seq<(Seq<char>, PortMapping)>) -> Seq<
    NetworkView,
>
    decreases dels.len(),
{
    if dels.len() == 0 {
        vs
    } else {
        with_mapping_removed(
            with_mappings_removed(vs, dels.drop_last()),
            dels.last().0,
            dels.last().1,
        )
    }
}

fn pair_eq(a: &(String, PortMapping), b: &(String, PortMapping)) -> (r: bool)
    ensures
        r == ((a.0@, a.1) == (b.0@, b.1)),
{
    str_equal(a.0.as_str(), b.0.as_str()) && a.1 == b.1
}

fn contains_pair(ms: &Vec<(String, PortMapping)>, p: &(String, PortMapping)) -> (r: bool)
    ensures
        r == mapping_views(ms@).contains((p.0@, p.1)),
{
    let ghost vs = mapping_views(ms@);
    let mut i: usize = 0;
    while i < ms.len()
        invariant
            i <= ms@.len(),
            vs == mapping_views(ms@),
            forall|j: int| 0 <= j < i ==> vs[j] != (p.0@, p.1),
        decreases ms@.len() - i,
    {
        if pair_eq(&ms[i], p) {
            assert(vs[i as int] == (p.0@, p.1));
            return true;
        }
        i = i + 1;
    }
    false
}

fn retain_pairs(ms: &mut Vec<(String, PortMapping)>, p: &(String, PortMapping))
    ensures
        mapping_views(final(ms)@) == pairs_without(mapping_views(old(ms)@), (p.0@, p.1)),
{
    let ghost vs = mapping_views(ms@);
    let mut out: Vec<(String, PortMapping)> = Vec::new();
    let mut i: usize = 0;
    while i < ms.len()
        invariant
            i <= ms@.len(),
            vs == mapping_views(ms@),
            mapping_views(out@) == pairs_without(vs.take(i as int), (p.0@, p.1)),
        decreases ms@.len() - i,
    {
        proof {
            reveal(Seq::filter);
            assert(vs.take(i + 1).drop_last() =~= vs.take(i as int));
        }
        if !pair_eq(&ms[i], p) {
            let ghost before = out@;
            let q = (ms[i].0.clone(), ms[i].1);
            out.push(q);
            assert(mapping_views(out@) =~= mapping_views(before).push(vs[i as int]));
        }
        i = i + 1;
    }
    assert(vs.take(ms@.len() as int) =~= vs);
    *ms = out;
}

fn has_network_id(networks: &Vec<Network>, id: &str) -> (r: bool)
    ensures
        r == exists|i: int| 0 <= i < networks@.len() && network_views(networks@)[i].id == id@,
{
    let mut i: usize = 0;
    while i < networks.len()
        invariant
            i <= networks@.len(),
            forall|j: int| 0 <= j < i ==> network_views(networks@)[j].id != id@,
        decreases networks@.len() - i,
    {
        if str_equal(networks[i].id.as_str(), id) {
            assert(network_views(networks@)[i as int].id == id@);
            return true;
        }
        i = i + 1;
    }
    false
}

/// `n` is the section `o` after `key`, with the VM's networks `ns`, and
/// `to_field` says whether the key belongs to one of the form's port fields.
pub open spec fn port_edit_after(o: PortForwarding, n: PortForwarding, ns: Seq<Network>, key: Key, to_field: bool) -> bool {
    &&& (n.new_mapping matches Some(f) ==> f.selected_network < ns.len())
    &&& (match o.new_mapping {
                Some(form) => if key == Key::Esc {
                    &&& n.new_mapping is None
                    &&& n.added_port_mappings == o.added_port_mappings
                    &&& n.deleted_port_mappings == o.deleted_port_mappings
                    &&& n.selected == o.selected
                    &&& !to_field
                } else if key == Key::Enter {
                    let ok = port_field_error(form.host_port@, "Host Port"@) is None
                        && port_field_error(form.guest_port@, "Guest Port"@) is None;
                    let m = PortMapping {
                        guest_port: parse_unsigned(form.guest_port@, 65535)->0 as u16,
                        host_port: parse_unsigned(form.host_port@, 65535)->0 as u16,
                        protocol: form.protocol,
                    };
                    let id = ns[form.selected_network as int].id@;
                    &&& !to_field
                    &&& n.deleted_port_mappings == o.deleted_port_mappings
                    &&& ok ==> {
                        &&& n.new_mapping is None
                        &&& mapping_views(n.added_port_mappings@) == mapping_views(
                            o.added_port_mappings@,
                        ).push((id, m))
                        &&& n.selected == match o.selected {
                            Some(i) => Some(i),
                            None => Some(0usize),
                        }
                    }
                    &&& !ok ==> {
                        &&& (n.new_mapping matches Some(f) && f.section == form.section
                            && f.guest_port == form.guest_port && f.host_port == form.host_port
                            && f.protocol == form.protocol && f.selected_network
                            == form.selected_network && opt_view(f.host_port_error)
                            == port_field_error(form.host_port@, "Host Port"@) && opt_view(
                            f.guest_port_error,
                        ) == port_field_error(form.guest_port@, "Guest Port"@))
                        &&& n.added_port_mappings == o.added_port_mappings
                        &&& n.selected == o.selected
                    }
                } else {
                    &&& to_field == mapping_key_to_field(form.section, key)
                    &&& (n.new_mapping matches Some(f) && mapping_form_after(
                        form,
                        f,
                        key,
                        ns.len(),
                    ))
                    &&& n.added_port_mappings == o.added_port_mappings
                    &&& n.deleted_port_mappings == o.deleted_port_mappings
                    &&& n.selected == o.selected
                },
                None => {
                    let vm = network_mappings(network_views(ns));
                    &&& !to_field
                    &&& if is_down(key) {
                        &&& n.selected == match o.selected {
                            Some(i) => Some(row_below(i, o.rows(ns))),
                            None => None,
                        }
                        &&& n.added_port_mappings == o.added_port_mappings
                        &&& n.deleted_port_mappings == o.deleted_port_mappings
                        &&& n.new_mapping is None
                    } else if is_up(key) {
                        &&& n.selected == match o.selected {
                            Some(i) => Some(row_above(i)),
                            None => None,
                        }
                        &&& n.added_port_mappings == o.added_port_mappings
                        &&& n.deleted_port_mappings == o.deleted_port_mappings
                        &&& n.new_mapping is None
                    } else if key == Key::Char('d') && o.selected is Some {
                        let i = o.selected->0;
                        &&& n.selected == o.selected
                        &&& n.new_mapping is None
                        &&& if i < vm.len() {
                            &&& mapping_views(n.deleted_port_mappings@) == if mapping_views(
                                o.deleted_port_mappings@,
                            ).contains(vm[i as int]) {
                                mapping_views(o.deleted_port_mappings@)
                            } else {
                                mapping_views(o.deleted_port_mappings@).push(vm[i as int])
                            }
                            &&& n.added_port_mappings == o.added_port_mappings
                        } else {
                            &&& n.added_port_mappings@
                                == o.added_port_mappings@.remove(i - vm.len())
                            &&& n.deleted_port_mappings == o.deleted_port_mappings
                        }
                    } else if key == Key::Char('u') && o.selected is Some
                        && o.selected->0 < vm.len() {
                        &&& mapping_views(n.deleted_port_mappings@) == pairs_without(
                            mapping_views(o.deleted_port_mappings@),
                            vm[o.selected->0 as int],
                        )
                        &&& n.added_port_mappings == o.added_port_mappings
                        &&& n.selected == o.selected
                        &&& n.new_mapping is None
                    } else {
                        &&& n.added_port_mappings == o.added_port_mappings
                        &&& n.deleted_port_mappings == o.deleted_port_mappings
                        &&& n.selected == o.selected
                        &&& if key == Key::Char('n') && ns.len() > 0 {
                            n.new_mapping matches Some(f) && fresh_mapping_form(f)
                        } else {
                            n.new_mapping is None
                        }
                    }
                },
            })
}

impl PortForwarding {
    /// The section for a VM whose networks are `networks`, the first rule
    /// highlighted.
    pub fn new(networks: &Vec<Network>) -> (r: Self)
        ensures
            r.added_port_mappings@.len() == 0,
            r.deleted_port_mappings@.len() == 0,
            r.new_mapping is None,
            r.selected == if network_mappings(network_views(networks@)).len() == 0 {
                None
            } else {
                Some(0usize)
            },
    {
        let mappings = all_mappings(networks);
        let selected = if mappings.len() == 0 {
            None
        } else {
            Some(0)
        };
        PortForwarding {
            added_port_mappings: Vec::new(),
            deleted_port_mappings: Vec::new(),
            new_mapping: None,
            selected,
        }
    }

    /// The form of a new rule is open.
    pub fn new_mapping_popup(&self) -> (r: bool)
        ensures
            r == self.new_mapping is Some,
    {
        self.new_mapping.is_some()
    }

    /// Forgets the added rules whose network is no longer among `networks`.
    pub fn refresh(&mut self, networks: &Vec<Network>)
        ensures
            mapping_views(final(self).added_port_mappings@) == pairs_of_networks(
                mapping_views(old(self).added_port_mappings@),
                network_views(networks@),
            ),
            final(self).deleted_port_mappings == old(self).deleted_port_mappings,
            final(self).new_mapping == old(self).new_mapping,
            final(self).selected == old(self).selected,
    {
        let ghost vs = mapping_views(self.added_port_mappings@);
        let ghost nv = network_views(networks@);
        let mut out: Vec<(String, PortMapping)> = Vec::new();
        let mut i: usize = 0;
        while i < self.added_port_mappings.len()
            invariant
                i <= self.added_port_mappings@.len(),
                vs == mapping_views(self.added_port_mappings@),
                nv == network_views(networks@),
                mapping_views(out@) == pairs_of_networks(vs.take(i as int), nv),
            decreases self.added_port_mappings@.len() - i,
        {
            proof {
                reveal(Seq::filter);
                assert(vs.take(i + 1).drop_last() =~= vs.take(i as int));
            }
            if has_network_id(networks, self.added_port_mappings[i].0.as_str()) {
                let ghost before = out@;
                let q = (self.added_port_mappings[i].0.clone(), self.added_port_mappings[i].1);
                out.push(q);
                assert(mapping_views(out@) =~= mapping_views(before).push(vs[i as int]));
            }
            i = i + 1;
        }
        assert(vs.take(self.added_port_mappings@.len() as int) =~= vs);
        self.added_port_mappings = out;
    }

    /// The number of rows, with the VM's networks `ns`.
    pub open spec fn rows(&self, ns: Seq<Network>) -> nat {
        network_mappings(network_views(ns)).len() + self.added_port_mappings@.len()
    }

    /// The key can be handled without a fault, with the VM's networks `ns`.
    pub open spec fn key_ok(&self, key: Key, ns: Seq<Network>) -> bool {
        match self.new_mapping {
            Some(f) => f.selected_network < ns.len(),
            None => {
                &&& (is_down(key) && self.selected is Some) ==> self.rows(ns) > 0
                &&& (!is_down(key) && !is_up(key) && key == Key::Char('d') && self.selected
                    is Some) ==> self.selected->0 < self.rows(ns)
            },
        }
    }

    /// Reacts to a key, with the VM's networks `networks`. While the form is
    /// open, Esc closes it, Enter records its rule as added when it is valid
    /// and other keys go to it. Otherwise the vertical keys move the
    /// highlight; `d` marks the highlighted rule of the VM for removal (once),
    /// or drops the highlighted added one; `u` takes back the removal of the
    /// highlighted rule of the VM; `n` opens the form when there is a
    /// network. Returns true when the key belongs to one of the form's port
    /// fields.
    pub fn handle_key_events(&mut self, key: Key, networks: &Vec<Network>) -> (to_field: bool)
        requires
            old(self).key_ok(key, networks@),
            old(self).rows(networks@) < usize::MAX,
        ensures
            port_edit_after(*old(self), *final(self), networks@, key, to_field),
    {
        if self.new_mapping.is_some() {
            let mut form = self.new_mapping.take().unwrap();
            if key == Key::Esc {
                return false;
            }
            if key == Key::Enter {
                if form.validate() {
                    let p = form.build(networks);
                    let ghost before = self.added_port_mappings@;
                    self.added_port_mappings.push(p);
                    assert(mapping_views(self.added_port_mappings@) =~= mapping_views(before).push(
                        (p.0@, p.1),
                    ));
                    if self.selected.is_none() {
                        self.selected = Some(0);
                    }
                } else {
                    self.new_mapping = Some(form);
                }
                return false;
            }
            let to_field = form.handle_key_events(key, networks.len());
            self.new_mapping = Some(form);
            return to_field;
        }
        let vm = all_mappings(networks);
        if key.down() {
            self.selected = select_next(
                self.selected,
                vm.len() + self.added_port_mappings.len(),
            );
        } else if key.up() {
            self.selected = select_prev(self.selected);
        } else if key == Key::Char('d') {
            match self.selected {
                Some(i) => {
                    if i < vm.len() {
                        if !contains_pair(&self.deleted_port_mappings, &vm[i]) {
                            let ghost before = self.deleted_port_mappings@;
                            let q = (vm[i].0.clone(), vm[i].1);
                            self.deleted_port_mappings.push(q);
                            assert(mapping_views(self.deleted_port_mappings@) =~= mapping_views(
                                before,
                            ).push(mapping_views(vm@)[i as int]));
                        }
                    } else {
                        let j = i - vm.len();
                        self.added_port_mappings.remove(j);
                    }
                },
                None => {},
            }
        } else if key == Key::Char('u') {
            match self.selected {
                Some(i) => {
                    if i < vm.len() {
                        retain_pairs(&mut self.deleted_port_mappings, &vm[i]);
                    }
                },
                None => {},
            }
        } else if key == Key::Char('n') && networks.len() > 0 {
            self.new_mapping = Some(MappingBuilder::new());
        }
        false
    }

    /// Applies the recorded changes to `networks`: each added rule goes to its
    /// network, then each removed one is taken out of its network.
    pub fn apply(&self, networks: &mut Vec<Network>)
        ensures
            network_views(final(networks)@) == with_mappings_removed(
                with_mappings_added(
                    network_views(old(networks)@),
                    mapping_views(self.added_port_mappings@),
                ),
                mapping_views(self.deleted_port_mappings@),
            ),
    {
        let ghost start = network_views(networks@);
        let ghost adds = mapping_views(self.added_port_mappings@);
        let mut i: usize = 0;
        while i < self.added_port_mappings.len()
            invariant
                i <= self.added_port_mappings@.len(),
                adds == mapping_views(self.added_port_mappings@),
                network_views(networks@) == with_mappings_added(start, adds.take(i as int)),
            decreases self.added_port_mappings@.len() - i,
        {
            let p = &self.added_port_mappings[i];
            add_mapping(networks, p.0.as_str(), p.1);
            assert(adds.take(i + 1).drop_last() =~= adds.take(i as int));
            i = i + 1;
        }
        assert(adds.take(i as int) =~= adds);
        let ghost mid = network_views(networks@);
        let ghost dels = mapping_views(self.deleted_port_mappings@);
        let mut j: usize = 0;
        while j < self.deleted_port_mappings.len()
            invariant
                j <= self.deleted_port_mappings@.len(),
                dels == mapping_views(self.deleted_port_mappings@),
                network_views(networks@) == with_mappings_removed(mid, dels.take(j as int)),
            decreases self.deleted_port_mappings@.len() - j,
        {
            let p = &self.deleted_port_mappings[j];
            remove_mapping(networks, p.0.as_str(), p.1);
            assert(dels.take(j + 1).drop_last() =~= dels.take(j as int));
            j = j + 1;
        }
        assert(dels.take(j as int) =~= dels);
    }
}

} // verus!
