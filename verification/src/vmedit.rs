//! The form that edits a stopped VM: its vCPUs and memory, disks, networks,
//! forwarded ports and remote access.
pub mod fs;
pub mod network;
pub mod port;
pub mod storage;

use vstd::prelude::*;
use vstd::string::*;

use crate::access::RemoteAccess;
use crate::access::vnc::{
    Ipv4,
    ipv4_text,
    lemma_ipv4_text_roundtrip,
    VncBuilder,
    parsed_ipv4,
    password_too_long,
    vnc_form_after,
    vnc_validated,
};
use crate::arch::Arch;
use crate::edit::{edit_field, end_of, typed, untouched};
use crate::key::{Key, is_down, is_up};
use crate::network::{Network, duplicate_networks, network_views};
use crate::network::port_forwarding::opt_view;
use crate::selection::{row_above, row_below, select_next, select_prev};
use crate::storage::{
    Disk,
    DiskBuilder,
    Drive,
    disk_form_after,
    disk_key_to_field,
    drive_views,
    size_field_error,
};
use crate::text::{dec, lemma_parse_dec, parse_unsigned, parse_unsigned_str, str_equal, to_decimal};
use crate::vm::{VM, keep_disks};
use crate::vmbuilder::port::{mapping_views, network_mappings};
use crate::vmbuilder::{memory_mib_field_error, number_field_check, vcpu_field_error};
use network::{NetworkEdit, network_edit_after};
use port::{
    PortForwarding,
    pairs_of_networks,
    port_edit_after,
    with_mappings_added,
    with_mappings_removed,
};

verus! {

/// The changes an edit makes to a VM.
#[derive(Debug)]
pub struct VMEditData {
    pub id: String,
    pub deleted_disks: Vec<String>,
    pub added_disks: Vec<Disk>,
    pub new_vcpu: u16,
    pub new_memory: u32,
    pub networks: Vec<Network>,
    pub remote_access: Option<RemoteAccess>,
}

/// The field of the hardware section that has the focus.
#[derive(Debug, Clone, Copy, PartialEq, Eq, Structural)]
pub enum HardwareSection {
    Cpu,
    Memory,
}

/// The section that has the focus.
#[derive(Debug, Clone, Copy, PartialEq, Eq, Structural)]
pub enum Section {
    Hardware(HardwareSection),
    Storage,
    Network,
    PortForwarding,
    RemoteAccess,
}

/// The position of a section in the form's header.
pub open spec fn section_index(s: Section) -> usize {
    match s {
        Section::Hardware(_) => 0,
        Section::Storage => 1,
        Section::Network => 2,
        Section::PortForwarding => 3,
        Section::RemoteAccess => 4,
    }
}

impl Section {
    /// The position of the section in the form's header.
    pub fn as_usize(&self) -> (r: usize)
        ensures
            r == section_index(*self),
    {
        match self {
            Section::Hardware(_) => 0,
            Section::Storage => 1,
            Section::Network => 2,
            Section::PortForwarding => 3,
            Section::RemoteAccess => 4,
        }
    }
}

/// What the caller does after a key.
#[derive(Debug, Clone, Copy, PartialEq, Eq, Structural)]
pub enum EditAction {
    /// Nothing more.
    Done,
    /// The key went to the focused text field and edited it.
    ToField,
    /// Apply the edit that `edit_data` describes.
    Submit,
}

/// The edit form of a VM. `networks` is the VM's list of networks as the
/// network section changes it; `vm_disks` are the VM's disks.
#[derive(Debug)]
pub struct EditVM {
    pub section: Section,
    pub vcpu: String,
    pub vcpu_cursor: usize,
    pub vcpu_error: Option<String>,
    pub memory: String,
    pub memory_cursor: usize,
    pub memory_error: Option<String>,
    pub disk_selected: Option<usize>,
    pub new_disk: Option<DiskBuilder>,
    pub added_disks: Vec<Disk>,
    pub deleted_disks: Vec<String>,
    pub networks: Vec<Network>,
    pub network: NetworkEdit,
    pub port_forwarding: PortForwarding,
    pub vnc: VncBuilder,
    pub vm_id: String,
    pub vm_disks: Vec<Drive>,
}

/// The paths of `v` as plain values.
pub open spec fn path_views(v: Seq<String>) -> Seq<Seq<char>> {
    v.map_values(|s: String| s@)
}

/// `ps` without the paths equal to `p`.
pub open spec fn paths_without(ps: Seq<Seq<char>>, p: Seq<char>) -> Seq<Seq<char>> {
    ps.filter(|x: Seq<char>| x != p)
}

fn retain_paths(ps: &mut Vec<String>, p: &str)
    ensures
        path_views(final(ps)@) == paths_without(path_views(old(ps)@), p@),
{
    let ghost vs = path_views(ps@);
    let mut out: Vec<String> = Vec::new();
    let mut i: usize = 0;
    while i < ps.len()
        invariant
            i <= ps@.len(),
            vs == path_views(ps@),
            path_views(out@) == paths_without(vs.take(i as int), p@),
        decreases ps@.len() - i,
    {
        proof {
            reveal(Seq::filter);
            assert(vs.take(i + 1).drop_last() =~= vs.take(i as int));
        }
        if !str_equal(ps[i].as_str(), p) {
            let ghost before = out@;
            out.push(ps[i].clone());
            assert(path_views(out@) =~= path_views(before).push(vs[i as int]));
        }
        i = i + 1;
    }
    assert(vs.take(ps@.len() as int) =~= vs);
    *ps = out;
}

fn duplicate_paths(ps: &Vec<String>) -> (r: Vec<String>)
    ensures
        path_views(r@) == path_views(ps@),
{
    let mut out: Vec<String> = Vec::new();
    let mut i: usize = 0;
    while i < ps.len()
        invariant
            i <= ps@.len(),
            path_views(out@) == path_views(ps@.take(i as int)),
        decreases ps@.len() - i,
    {
        let ghost before = out@;
        out.push(ps[i].clone());
        assert(path_views(out@) =~= path_views(before).push(ps@[i as int]@));
        i = i + 1;
        assert(path_views(ps@.take(i as int)) =~= path_views(ps@.take(i - 1)).push(
            ps@[i - 1]@,
        ));
    }
    assert(ps@.take(ps@.len() as int) =~= ps@);
    out
}

/// The outcome of the hardware check of the form `o`.
pub open spec fn edit_hardware_check(o: EditVM) -> bool {
    vcpu_field_error(o.vcpu@) is None && memory_mib_field_error(o.memory@) is None
}

/// `n` holds the errors of the hardware check of `o`, and the same texts.
pub open spec fn edit_hardware_checked(o: EditVM, n: EditVM) -> bool {
    &&& opt_view(n.vcpu_error) == vcpu_field_error(o.vcpu@)
    &&& opt_view(n.memory_error) == memory_mib_field_error(o.memory@)
    &&& n.vcpu == o.vcpu
    &&& n.vcpu_cursor == o.vcpu_cursor
    &&& n.memory == o.memory
    &&& n.memory_cursor == o.memory_cursor
}

/// The parts of `n` are those of `o`, except those flagged.
pub open spec fn edit_same_except(
    o: EditVM,
    n: EditVM,
    hardware: bool,
    disks: bool,
    networks: bool,
    ports: bool,
    vnc: bool,
) -> bool {
    &&& !hardware ==> (n.vcpu == o.vcpu && n.vcpu_cursor == o.vcpu_cursor && n.vcpu_error
        == o.vcpu_error && n.memory == o.memory && n.memory_cursor == o.memory_cursor
        && n.memory_error == o.memory_error)
    &&& !disks ==> (n.disk_selected == o.disk_selected && n.new_disk == o.new_disk
        && n.added_disks == o.added_disks && n.deleted_disks == o.deleted_disks)
    &&& !networks ==> (n.network == o.network && n.networks == o.networks)
    &&& !ports ==> n.port_forwarding == o.port_forwarding
    &&& !vnc ==> n.vnc == o.vnc
    &&& n.vm_id == o.vm_id
    &&& n.vm_disks == o.vm_disks
}

/// `n` is `o` with the added rules forgotten whose network is gone.
pub open spec fn ports_refreshed(o: EditVM, n: EditVM) -> bool {
    &&& mapping_views(n.port_forwarding.added_port_mappings@) == pairs_of_networks(
        mapping_views(o.port_forwarding.added_port_mappings@),
        network_views(o.networks@),
    )
    &&& n.port_forwarding.deleted_port_mappings == o.port_forwarding.deleted_port_mappings
    &&& n.port_forwarding.new_mapping == o.port_forwarding.new_mapping
    &&& n.port_forwarding.selected == o.port_forwarding.selected
}

/// The outcome of the remote access check of the form `o`.
pub open spec fn edit_access_check(o: EditVM) -> bool {
    !(o.vnc.host@.len() > 0 && parsed_ipv4(o.vnc.host@) is None) && !password_too_long(
        o.vnc.password@,
    )
}

/// The action of a key that went to a section, by whether it belongs to a field.
pub open spec fn edit_field_action(to_field: bool) -> EditAction {
    if to_field {
        EditAction::ToField
    } else {
        EditAction::Done
    }
}

/// `n` is the form `o` after Tab or BackTab (`forward` for Tab): the
/// hardware and the remote access sections are checked before they are
/// left, and the added rules are refreshed when the network section is left.
pub open spec fn edit_moved(o: EditVM, n: EditVM, forward: bool) -> bool {
    match o.section {
        Section::Hardware(_) => {
            let passed = edit_hardware_check(o);
            &&& edit_hardware_checked(o, n)
            &&& edit_same_except(o, n, true, false, false, false, false)
            &&& n.section == if !passed {
                o.section
            } else if forward {
                Section::Storage
            } else {
                Section::RemoteAccess
            }
        },
        Section::Storage => {
            &&& edit_same_except(o, n, false, false, false, false, false)
            &&& n.section == if forward {
                Section::Network
            } else {
                Section::Hardware(HardwareSection::Cpu)
            }
        },
        Section::Network => {
            &&& ports_refreshed(o, n)
            &&& edit_same_except(o, n, false, false, false, true, false)
            &&& n.section == if forward {
                Section::PortForwarding
            } else {
                Section::Storage
            }
        },
        Section::PortForwarding => {
            &&& edit_same_except(o, n, false, false, false, false, false)
            &&& n.section == if forward {
                Section::RemoteAccess
            } else {
                Section::Network
            }
        },
        Section::RemoteAccess => {
            let passed = edit_access_check(o);
            &&& vnc_validated(o.vnc, n.vnc, passed)
            &&& edit_same_except(o, n, false, false, false, false, true)
            &&& n.section == if !passed {
                o.section
            } else if forward {
                Section::Hardware(HardwareSection::Cpu)
            } else {
                Section::PortForwarding
            }
        },
    }
}

/// `n` is the form `o` after a key of the storage section, while no form is open.
pub open spec fn edit_storage_after(o: EditVM, n: EditVM, key: Key) -> bool {
    let rows = o.vm_disks@.len() + o.added_disks@.len();
    &&& n.section == o.section
    &&& edit_same_except(o, n, false, true, false, false, false)
    &&& if is_down(key) {
        &&& n.disk_selected == match o.disk_selected {
            Some(i) => Some(row_below(i, rows)),
            None => None,
        }
        &&& n.new_disk == o.new_disk
        &&& n.added_disks == o.added_disks
        &&& n.deleted_disks == o.deleted_disks
    } else if is_up(key) {
        &&& n.disk_selected == match o.disk_selected {
            Some(i) => Some(row_above(i)),
            None => None,
        }
        &&& n.new_disk == o.new_disk
        &&& n.added_disks == o.added_disks
        &&& n.deleted_disks == o.deleted_disks
    } else if key == Key::Char('d') && o.disk_selected is Some {
        let i = o.disk_selected->0;
        &&& n.disk_selected == o.disk_selected
        &&& n.new_disk == o.new_disk
        &&& if i < o.vm_disks@.len() {
            &&& path_views(n.deleted_disks@) == path_views(o.deleted_disks@).push(
                o.vm_disks@[i as int].path@,
            )
            &&& n.added_disks == o.added_disks
        } else {
            &&& n.added_disks@ == o.added_disks@.remove(i - o.vm_disks@.len())
            &&& n.deleted_disks == o.deleted_disks
        }
    } else if key == Key::Char('u') && o.disk_selected is Some && o.disk_selected->0
        < o.vm_disks@.len() {
        &&& path_views(n.deleted_disks@) == paths_without(
            path_views(o.deleted_disks@),
            o.vm_disks@[o.disk_selected->0 as int].path@,
        )
        &&& n.disk_selected == o.disk_selected
        &&& n.new_disk == o.new_disk
        &&& n.added_disks == o.added_disks
    } else {
        &&& n.disk_selected == o.disk_selected
        &&& n.added_disks == o.added_disks
        &&& n.deleted_disks == o.deleted_disks
        &&& if key == Key::Char('n') {
            n.new_disk matches Some(f) && f.is_fresh()
        } else {
            n.new_disk == o.new_disk
        }
    }
}

/// `n` is the form `o` after a key while its disk form is open, on a VM of
/// architecture `arch`.
pub open spec fn edit_disk_form_after(
    o: EditVM,
    n: EditVM,
    key: Key,
    arch: Arch,
    action: EditAction,
) -> bool {
    let form = o.new_disk->0;
    &&& n.section == o.section
    &&& edit_same_except(o, n, false, true, false, false, false)
    &&& n.deleted_disks == o.deleted_disks
    &&& if key == Key::Esc {
        &&& n.new_disk is None
        &&& n.added_disks == o.added_disks
        &&& n.disk_selected == o.disk_selected
        &&& action == EditAction::Done
    } else if key == Key::Enter {
        let ok = size_field_error(form.size@) is None;
        &&& action == EditAction::Done
        &&& ok ==> {
            &&& n.new_disk is None
            &&& n.added_disks@ == o.added_disks@.push(
                Disk {
                    size: parse_unsigned(form.size@, 18446744073709551615)->0 as u64,
                    format: form.format,
                    interface: form.interface,
                },
            )
            &&& n.disk_selected == match o.disk_selected {
                Some(i) => Some(i),
                None => Some(0usize),
            }
        }
        &&& !ok ==> {
            &&& (n.new_disk matches Some(f) && f.section == form.section && f.format
                == form.format && f.size == form.size && f.interface == form.interface
                && opt_view(f.size_error) == size_field_error(form.size@))
            &&& n.added_disks == o.added_disks
            &&& n.disk_selected == o.disk_selected
        }
    } else {
        &&& (n.new_disk matches Some(f) && disk_form_after(form, f, key, arch))
        &&& action == edit_field_action(disk_key_to_field(form.section, key, arch))
        &&& n.added_disks == o.added_disks
        &&& n.disk_selected == o.disk_selected
    }
}

/// `n` is the form `o` after `key`, on a VM of architecture `arch` (`is_root`
/// offers the tap backend), and `action` is what the caller does next. An
/// open disk, network or rule form takes every key; otherwise Enter submits
/// the edit, Tab and BackTab move between the sections, and other keys go to
/// the focused section.
pub open spec fn edit_after(
    o: EditVM,
    n: EditVM,
    key: Key,
    arch: Arch,
    is_root: bool,
    action: EditAction,
) -> bool {
    if o.new_disk is Some {
        edit_disk_form_after(o, n, key, arch, action)
    } else if o.network.new_network is Some {
        &&& network_edit_after(
            o.network,
            n.network,
            o.networks@,
            n.networks@,
            key,
            is_root,
            action == EditAction::ToField,
        )
        &&& action != EditAction::Submit
        &&& n.section == o.section
        &&& edit_same_except(o, n, false, false, true, false, false)
    } else if o.port_forwarding.new_mapping is Some {
        &&& port_edit_after(
            o.port_forwarding,
            n.port_forwarding,
            o.networks@,
            key,
            action == EditAction::ToField,
        )
        &&& action != EditAction::Submit
        &&& n.section == o.section
        &&& edit_same_except(o, n, false, false, false, true, false)
    } else if key == Key::Enter {
        &&& action == EditAction::Submit
        &&& n.section == o.section
        &&& edit_same_except(o, n, false, false, false, false, false)
    } else if key == Key::Tab || key == Key::BackTab {
        &&& action == EditAction::Done
        &&& edit_moved(o, n, key == Key::Tab)
    } else {
        match o.section {
            Section::Hardware(h) => {
                let moves = is_up(key) || is_down(key);
                let passed = moves && edit_hardware_check(o);
                &&& edit_same_except(o, n, true, false, false, false, false)
                &&& moves ==> (opt_view(n.vcpu_error) == vcpu_field_error(o.vcpu@) && opt_view(
                    n.memory_error,
                ) == memory_mib_field_error(o.memory@))
                &&& !moves ==> (n.vcpu_error == o.vcpu_error && n.memory_error == o.memory_error)
                &&& n.section == if passed {
                    Section::Hardware(
                        match h {
                            HardwareSection::Cpu => HardwareSection::Memory,
                            HardwareSection::Memory => HardwareSection::Cpu,
                        },
                    )
                } else {
                    o.section
                }
                &&& action == if passed {
                    EditAction::Done
                } else {
                    EditAction::ToField
                }
                &&& if !passed && h == HardwareSection::Cpu {
                    typed(o.vcpu, o.vcpu_cursor, n.vcpu, n.vcpu_cursor, key)
                } else {
                    untouched(o.vcpu, o.vcpu_cursor, n.vcpu, n.vcpu_cursor)
                }
                &&& if !passed && h == HardwareSection::Memory {
                    typed(o.memory, o.memory_cursor, n.memory, n.memory_cursor, key)
                } else {
                    untouched(o.memory, o.memory_cursor, n.memory, n.memory_cursor)
                }
            },
            Section::Storage => {
                &&& edit_storage_after(o, n, key)
                &&& action == EditAction::Done
            },
            Section::Network => {
                &&& network_edit_after(
                    o.network,
                    n.network,
                    o.networks@,
                    n.networks@,
                    key,
                    is_root,
                    action == EditAction::ToField,
                )
                &&& action != EditAction::Submit
                &&& n.section == o.section
                &&& edit_same_except(o, n, false, false, true, false, false)
            },
            Section::PortForwarding => {
                &&& port_edit_after(
                    o.port_forwarding,
                    n.port_forwarding,
                    o.networks@,
                    key,
                    action == EditAction::ToField,
                )
                &&& action != EditAction::Submit
                &&& n.section == o.section
                &&& edit_same_except(o, n, false, false, false, true, false)
            },
            Section::RemoteAccess => {
                &&& vnc_form_after(o.vnc, n.vnc, key, action == EditAction::ToField)
                &&& action != EditAction::Submit
                &&& n.section == o.section
                &&& edit_same_except(o, n, false, false, false, false, true)
            },
        }
    }
}

impl EditVM {
    /// The form for `vm`: its vCPU count and memory as text, its first disk
    /// highlighted, its networks, and its VNC settings (VNC off when it has
    /// none).
    pub fn new(vm: &VM) -> (r: Self)
        ensures
            r.section == Section::Hardware(HardwareSection::Cpu),
            r.vcpu@ == dec(vm.vcpu as nat),
            r.memory@ == dec(vm.memory as nat),
            r.vcpu_cursor == r.vcpu@.len(),
            r.memory_cursor == r.memory@.len(),
            r.vcpu_error is None && r.memory_error is None,
            drive_views(r.vm_disks@) == keep_disks(drive_views(vm.drives@)),
            r.disk_selected == if r.vm_disks@.len() == 0 {
                None
            } else {
                Some(0usize)
            },
            r.new_disk is None,
            r.added_disks@.len() == 0,
            r.deleted_disks@.len() == 0,
            network_views(r.networks@) == network_views(vm.networks@),
            network_views(r.network.initial_networks@) == network_views(vm.networks@),
            r.network.new_network is None,
            r.network.added_networks@.len() == 0,
            r.network.deleted_networks@.len() == 0,
            r.network.selected == if vm.networks@.len() == 0 {
                None
            } else {
                Some(0usize)
            },
            r.port_forwarding.new_mapping is None,
            r.port_forwarding.added_port_mappings@.len() == 0,
            r.port_forwarding.deleted_port_mappings@.len() == 0,
            r.port_forwarding.selected == if network_mappings(network_views(vm.networks@)).len()
                == 0 {
                None
            } else {
                Some(0usize)
            },
            r.vm_id@ == vm.id@,
            match vm.remote_access {
                Some(RemoteAccess::Vnc(v)) => r.vnc.enabled && r.vnc.host@ == ipv4_text(v.host)
                    && r.vnc.password@ == match v.password {
                    Some(p) => p@,
                    None => Seq::<char>::empty(),
                },
                _ => !r.vnc.enabled,
            },
    {
        let vm_disks = vm.disks();
        let disk_selected = if vm_disks.len() == 0 {
            None
        } else {
            Some(0)
        };
        let vnc = match &vm.remote_access {
            Some(RemoteAccess::Vnc(v)) => {
                let password = match &v.password {
                    Some(p) => Some(p.clone()),
                    None => None,
                };
                VncBuilder::new(true, v.host, password)
            },
            _ => {
                let mut b = VncBuilder::default();
                b.enabled = false;
                b
            },
        };
        let vcpu = to_decimal(vm.vcpu as u64);
        let vcpu_cursor = end_of(&vcpu);
        let memory = to_decimal(vm.memory as u64);
        let memory_cursor = end_of(&memory);
        let networks = duplicate_networks(&vm.networks);
        let network = NetworkEdit::new(&networks);
        let port_forwarding = PortForwarding::new(&networks);
        EditVM {
            section: Section::Hardware(HardwareSection::Cpu),
            vcpu,
            vcpu_cursor,
            vcpu_error: None,
            memory,
            memory_cursor,
            memory_error: None,
            disk_selected,
            new_disk: None,
            added_disks: Vec::new(),
            deleted_disks: Vec::new(),
            networks,
            network,
            port_forwarding,
            vnc,
            vm_id: vm.id.clone(),
            vm_disks,
        }
    }

    /// A disk, network or rule form is open.
    pub fn new_popup(&self) -> (r: bool)
        ensures
            r == (self.port_forwarding.new_mapping is Some || self.new_disk is Some
                || self.network.new_network is Some),
    {
        self.port_forwarding.new_mapping_popup() || self.new_disk.is_some()
            || self.network.new_network_popup()
    }

    /// Checks the vCPU count and the memory and records their errors; true
    /// when there is none.
    pub fn validate_harware_section(&mut self) -> (valid: bool)
        ensures
            edit_hardware_checked(*old(self), *final(self)),
            valid == edit_hardware_check(*old(self)),
            edit_same_except(*old(self), *final(self), true, false, false, false, false),
            final(self).section == old(self).section,
    {
        self.vcpu_error = number_field_check(
            self.vcpu.as_str(),
            65535,
            "vcpu value can not be 0",
            "vcpu value should be a number",
        );
        self.memory_error = number_field_check(
            self.memory.as_str(),
            4294967295,
            "Memory value can not be 0",
            "Memory value should be a number",
        );
        self.vcpu_error.is_none() && self.memory_error.is_none()
    }

    /// Checks the VNC settings and records their errors; true when there is none.
    pub fn validate_remote_access(&mut self) -> (valid: bool)
        ensures
            vnc_validated(old(self).vnc, final(self).vnc, valid),
            edit_same_except(*old(self), *final(self), false, false, false, false, true),
            final(self).section == old(self).section,
    {
        self.vnc.validate()
    }

    /// The edit can be submitted: the vCPU count and the memory are numbers
    /// that fit, and an enabled VNC server has a valid address.
    pub open spec fn submittable(&self) -> bool {
        &&& parse_unsigned(self.vcpu@, 65535) is Some
        &&& parse_unsigned(self.memory@, 4294967295) is Some
        &&& self.vnc.enabled ==> parsed_ipv4(self.vnc.host@) is Some
    }

    /// Whether the edit can be submitted (see `submittable`).
    pub fn can_submit(&self) -> (r: bool)
        ensures
            r == self.submittable(),
    {
        parse_unsigned_str(self.vcpu.as_str(), 65535).is_some() && parse_unsigned_str(
            self.memory.as_str(),
            4294967295,
        ).is_some() && (!self.vnc.enabled || Ipv4::parse(self.vnc.host.as_str()).is_some())
    }

    /// The edit the form describes: the networks get the added rules, then
    /// lose the removed ones.
    pub fn edit_data(&self) -> (r: VMEditData)
        requires
            self.submittable(),
        ensures
            r.id@ == self.vm_id@,
            path_views(r.deleted_disks@) == path_views(self.deleted_disks@),
            r.added_disks@ == self.added_disks@,
            r.new_vcpu == parse_unsigned(self.vcpu@, 65535)->0,
            r.new_memory == parse_unsigned(self.memory@, 4294967295)->0,
            network_views(r.networks@) == with_mappings_removed(
                with_mappings_added(
                    network_views(self.networks@),
                    mapping_views(self.port_forwarding.added_port_mappings@),
                ),
                mapping_views(self.port_forwarding.deleted_port_mappings@),
            ),
            r.remote_access is Some <==> self.vnc.enabled,
            r.remote_access matches Some(a) ==> (a matches RemoteAccess::Vnc(v) && v.host
                == parsed_ipv4(self.vnc.host@)->0),
            r.remote_access matches Some(RemoteAccess::Vnc(v)) ==> match v.password {
                Some(p) => self.vnc.password@.len() > 0 && p@ == self.vnc.password@,
                None => self.vnc.password@.len() == 0,
            },
    {
        let mut networks = duplicate_networks(&self.networks);
        let ghost start = network_views(networks@);
        self.port_forwarding.apply(&mut networks);
        let remote_access = match self.vnc.build() {
            Some(v) => Some(RemoteAccess::Vnc(v)),
            None => None,
        };
        VMEditData {
            id: self.vm_id.clone(),
            deleted_disks: duplicate_paths(&self.deleted_disks),
            added_disks: self.added_disks.clone(),
            new_vcpu: parse_unsigned_str(self.vcpu.as_str(), 65535).unwrap() as u16,
            new_memory: parse_unsigned_str(self.memory.as_str(), 4294967295).unwrap() as u32,
            networks,
            remote_access,
        }
    }

    /// The key can be handled without a fault: the list it reaches accepts
    /// it (and its rows can be counted), and Enter finds an edit that can be
    /// submitted.
    pub open spec fn key_ok(&self, key: Key) -> bool {
        let popup = self.new_disk is Some || self.network.new_network is Some
            || self.port_forwarding.new_mapping is Some;
        let moves = key == Key::Tab || key == Key::BackTab || key == Key::Enter;
        let rows = self.vm_disks@.len() + self.added_disks@.len();
        &&& (self.new_disk is None && (self.network.new_network is Some || (!popup && !moves
            && self.section == Section::Network))) ==> {
            &&& self.network.rows() < usize::MAX
            &&& self.networks@.len() < usize::MAX
            &&& self.network.key_ok(key)
        }
        &&& (self.new_disk is None && self.network.new_network is None && (
        self.port_forwarding.new_mapping is Some || (!popup && !moves && self.section
            == Section::PortForwarding))) ==> {
            &&& self.port_forwarding.rows(self.networks@) < usize::MAX
            &&& self.port_forwarding.key_ok(key, self.networks@)
        }
        &&& (!popup && key == Key::Enter) ==> self.submittable()
        &&& (!popup && !moves && self.section == Section::Storage) ==> {
            &&& is_down(key) ==> rows < usize::MAX
            &&& (is_down(key) && self.disk_selected is Some) ==> rows > 0
            &&& (!is_down(key) && !is_up(key) && key == Key::Char('d') && self.disk_selected
                is Some) ==> self.disk_selected->0 < rows
        }
    }

    /// Reacts to a key, on a VM of architecture `arch` (`is_root` offers the
    /// tap backend); see `edit_after`.
    pub fn handle_key_events(&mut self, key: Key, arch: Arch, is_root: bool) -> (action: EditAction)
        requires
            old(self).key_ok(key),
        ensures
            edit_after(*old(self), *final(self), key, arch, is_root, action),
            action == EditAction::Submit ==> final(self).submittable(),
    {
        if self.new_disk.is_some() {
            let mut form = self.new_disk.take().unwrap();
            if key == Key::Esc {
                return EditAction::Done;
            }
            if key == Key::Enter {
                if form.validate() {
                    let disk = form.build();
                    self.added_disks.push(disk);
                    if self.disk_selected.is_none() {
                        self.disk_selected = Some(0);
                    }
                } else {
                    self.new_disk = Some(form);
                }
                return EditAction::Done;
            }
            let to_field = form.handle_key_events(key, arch);
            self.new_disk = Some(form);
            return if to_field {
                EditAction::ToField
            } else {
                EditAction::Done
            };
        }
        if self.network.new_network_popup() {
            let to_field = self.network.handle_key_events(key, is_root, &mut self.networks);
            return if to_field {
                EditAction::ToField
            } else {
                EditAction::Done
            };
        }
        if self.port_forwarding.new_mapping_popup() {
            let to_field = self.port_forwarding.handle_key_events(key, &self.networks);
            return if to_field {
                EditAction::ToField
            } else {
                EditAction::Done
            };
        }
        if key == Key::Enter {
            return EditAction::Submit;
        }
        if key == Key::Tab || key == Key::BackTab {
            let forward = key == Key::Tab;
            match self.section {
                Section::Hardware(_) => {
                    if self.validate_harware_section() {
                        self.section = if forward {
                            Section::Storage
                        } else {
                            Section::RemoteAccess
                        };
                    }
                },
                Section::Storage => {
                    self.section = if forward {
                        Section::Network
                    } else {
                        Section::Hardware(HardwareSection::Cpu)
                    };
                },
                Section::Network => {
                    self.port_forwarding.refresh(&self.networks);
                    self.section = if forward {
                        Section::PortForwarding
                    } else {
                        Section::Storage
                    };
                },
                Section::PortForwarding => {
                    self.section = if forward {
                        Section::RemoteAccess
                    } else {
                        Section::Network
                    };
                },
                Section::RemoteAccess => {
                    if self.validate_remote_access() {
                        self.section = if forward {
                            Section::Hardware(HardwareSection::Cpu)
                        } else {
                            Section::PortForwarding
                        };
                    }
                },
            }
            return EditAction::Done;
        }
        match self.section {
            Section::Hardware(h) => {
                if key.up() || key.down() {
                    if self.validate_harware_section() {
                        self.section = Section::Hardware(
                            match h {
                                HardwareSection::Cpu => HardwareSection::Memory,
                                HardwareSection::Memory => HardwareSection::Cpu,
                            },
                        );
                        return EditAction::Done;
                    }
                }
                match h {
                    HardwareSection::Cpu => edit_field(&mut self.vcpu, &mut self.vcpu_cursor, key),
                    HardwareSection::Memory => edit_field(
                        &mut self.memory,
                        &mut self.memory_cursor,
                        key,
                    ),
                }
                EditAction::ToField
            },
            Section::Storage => {
                if key.down() {
                    let rows = self.vm_disks.len() + self.added_disks.len();
                    self.disk_selected = select_next(self.disk_selected, rows);
                } else if key.up() {
                    self.disk_selected = select_prev(self.disk_selected);
                } else if key == Key::Char('d') {
                    match self.disk_selected {
                        Some(i) => {
                            if i < self.vm_disks.len() {
                                let ghost before = self.deleted_disks@;
                                self.deleted_disks.push(self.vm_disks[i].path.clone());
                                assert(path_views(self.deleted_disks@) =~= path_views(
                                    before,
                                ).push(self.vm_disks@[i as int].path@));
                            } else {
                                self.added_disks.remove(i - self.vm_disks.len());
                            }
                        },
                        None => {},
                    }
                } else if key == Key::Char('u') {
                    match self.disk_selected {
                        Some(i) => {
                            if i < self.vm_disks.len() {
                                retain_paths(
                                    &mut self.deleted_disks,
                                    self.vm_disks[i].path.as_str(),
                                );
                            }
                        },
                        None => {},
                    }
                } else if key == Key::Char('n') {
                    self.new_disk = Some(DiskBuilder::new());
                }
                EditAction::Done
            },
            Section::Network => {
                let to_field = self.network.handle_key_events(key, is_root, &mut self.networks);
                if to_field {
                    EditAction::ToField
                } else {
                    EditAction::Done
                }
            },
            Section::PortForwarding => {
                let to_field = self.port_forwarding.handle_key_events(key, &self.networks);
                if to_field {
                    EditAction::ToField
                } else {
                    EditAction::Done
                }
            },
            Section::RemoteAccess => {
                let to_field = self.vnc.handle_key_events(key);
                if to_field {
                    EditAction::ToField
                } else {
                    EditAction::Done
                }
            },
        }
    }
}

/// A form opened on a VM (as `EditVM::new` opens it) can be submitted at once,
/// and submitting it unchanged keeps the VM's vCPU count, memory and VNC
/// address.
pub proof fn lemma_edit_unchanged(vm: VM, e: EditVM)
    requires
        e.vcpu@ == dec(vm.vcpu as nat),
        e.memory@ == dec(vm.memory as nat),
        match vm.remote_access {
            Some(RemoteAccess::Vnc(v)) => e.vnc.enabled && e.vnc.host@ == ipv4_text(v.host),
            _ => !e.vnc.enabled,
        },
    ensures
        e.submittable(),
        parse_unsigned(e.vcpu@, 65535) == Some(vm.vcpu as nat),
        parse_unsigned(e.memory@, 4294967295) == Some(vm.memory as nat),
        vm.remote_access matches Some(RemoteAccess::Vnc(v)) ==> parsed_ipv4(e.vnc.host@) == Some(
            v.host,
        ),
{
    lemma_parse_dec(vm.vcpu as nat, 65535);
    lemma_parse_dec(vm.memory as nat, 4294967295);
    if let Some(RemoteAccess::Vnc(v)) = vm.remote_access {
        lemma_ipv4_text_roundtrip(v.host);
    }
}

/// Tab then BackTab from the storage section, with no form open, returns to
/// it and leaves the form as it was, but for the added rules whose network is
/// gone (forgotten on leaving the network section).
pub proof fn lemma_edit_tab_back(
    e0: EditVM,
    e1: EditVM,
    e2: EditVM,
    arch: Arch,
    is_root: bool,
    r1: EditAction,
    r2: EditAction,
)
    requires
        e0.new_disk is None,
        e0.network.new_network is None,
        e0.port_forwarding.new_mapping is None,
        e0.section == Section::Storage,
        edit_after(e0, e1, Key::Tab, arch, is_root, r1),
        edit_after(e1, e2, Key::BackTab, arch, is_root, r2),
    ensures
        e2.section == e0.section,
        edit_same_except(e0, e2, false, false, false, true, false),
        ports_refreshed(e0, e2),
{
}

/// Marking the highlighted disk of the VM for removal (`d`), then taking the
/// mark back (`u`), leaves the removed disks as they were without that disk's
/// path, and the rest of the form as it was.
pub proof fn lemma_disk_delete_undelete(
    e0: EditVM,
    e1: EditVM,
    e2: EditVM,
    arch: Arch,
    is_root: bool,
    r1: EditAction,
    r2: EditAction,
)
    requires
        e0.new_disk is None,
        e0.network.new_network is None,
        e0.port_forwarding.new_mapping is None,
        e0.section == Section::Storage,
        e0.disk_selected matches Some(i) && i < e0.vm_disks@.len(),
        edit_after(e0, e1, Key::Char('d'), arch, is_root, r1),
        edit_after(e1, e2, Key::Char('u'), arch, is_root, r2),
    ensures
        path_views(e2.deleted_disks@) == paths_without(
            path_views(e0.deleted_disks@),
            e0.vm_disks@[e0.disk_selected->0 as int].path@,
        ),
        e2.section == e0.section,
        e2.disk_selected == e0.disk_selected,
        e2.new_disk == e0.new_disk,
        e2.added_disks == e0.added_disks,
        edit_same_except(e0, e2, false, true, false, false, false),
        r1 == EditAction::Done,
        r2 == EditAction::Done,
{
    let p = e0.vm_disks@[e0.disk_selected->0 as int].path@;
    let d = path_views(e0.deleted_disks@);
    assert(d.push(p).drop_last() =~= d);
    assert(paths_without(d.push(p), p) =~= paths_without(d, p)) by {
        reveal(Seq::filter);
    }
}

} // verus!
