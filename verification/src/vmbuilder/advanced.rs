//! The advanced VM creation form: its sections, the moves between them
//! (each checked where the section has something to check), and the data it
//! builds.
use vstd::prelude::*;

use crate::access::vnc::{Ipv4, parsed_ipv4, password_too_long, vnc_form_after, vnc_validated};
use crate::arch::Arch;
use crate::distro::LinuxDistro;
use crate::key::Key;
use crate::network::{Nic, NetworkBackend, NetworkView, duplicate_networks, network_views};
use crate::text::{parse_unsigned, parse_unsigned_str};
use crate::vmbuilder::access::RemoteAccessBuilder;
use crate::vmbuilder::hardware::{Hardware, hardware_after, hardware_validated};
use crate::vmbuilder::network::Network;
use crate::vmbuilder::overview::{
    Overview,
    optional_path,
    overview_after,
    overview_check,
    overview_os,
    overview_validated,
};
use crate::vmbuilder::port::{PortForwarding, port_forwarding_after};
use crate::vmbuilder::storage::{Storage, storage_after};
use crate::vmbuilder::{VMBuildData, memory_mib_field_error, vcpu_field_error};
use crate::network::port_forwarding::opt_view;

verus! {

/// The section that has the focus.
#[derive(Debug, Clone, Copy, PartialEq, Eq, Structural)]
pub enum Section {
    Overview,
    Hardware,
    Storage,
    Network,
    PortForwarding,
    RemoteAccess,
    Summary,
}

/// What the caller does after a key.
#[derive(Debug, Clone, Copy, PartialEq, Eq, Structural)]
pub enum AdvancedAction {
    /// Nothing more.
    Done,
    /// The key went to the focused text field and edited it.
    ToField,
    /// Create the VM that `build` describes.
    Create,
}

/// The advanced form. `networks` are the networks the new VM gets; the port
/// forwarding section edits their rules.
#[derive(Debug)]
pub struct Advanced {
    pub focused_section: Section,
    pub overview: Overview,
    pub hardware: Hardware,
    pub storage: Storage,
    pub network: Network,
    pub networks: Vec<crate::network::Network>,
    pub port_forwarding: PortForwarding,
    pub remote_access: RemoteAccessBuilder,
}

/// The section after Tab, given whether the check of the section left
/// (where it has one) passed.
pub open spec fn tab_target(s: Section, passed: bool) -> Section {
    match s {
        Section::Overview => if passed {
            Section::Hardware
        } else {
            s
        },
        Section::Hardware => if passed {
            Section::Storage
        } else {
            s
        },
        Section::Storage => Section::Network,
        Section::Network => Section::PortForwarding,
        Section::PortForwarding => Section::RemoteAccess,
        Section::RemoteAccess => if passed {
            Section::Summary
        } else {
            s
        },
        Section::Summary => Section::Overview,
    }
}

/// The section after BackTab, given whether the check of the section left
/// (where it has one) passed.
pub open spec fn backtab_target(s: Section, passed: bool) -> Section {
    match s {
        Section::Overview => if passed {
            Section::Summary
        } else {
            s
        },
        Section::Hardware => if passed {
            Section::Overview
        } else {
            s
        },
        Section::Storage => Section::Hardware,
        Section::Network => Section::Storage,
        Section::PortForwarding => Section::Network,
        Section::RemoteAccess => if passed {
            Section::PortForwarding
        } else {
            s
        },
        Section::Summary => Section::RemoteAccess,
    }
}

/// The outcome of the remote access check of `o`.
pub open spec fn access_check(o: RemoteAccessBuilder) -> bool {
    !(o.vnc.host@.len() > 0 && parsed_ipv4(o.vnc.host@) is None) && !password_too_long(
        o.vnc.password@,
    )
}

/// The outcome of the hardware check of `o`.
pub open spec fn hardware_check(o: Hardware) -> bool {
    vcpu_field_error(o.vcpu@) is None && memory_mib_field_error(o.memory@) is None
}

/// The sections of `n` are those of `o`, except those flagged.
pub open spec fn same_except(
    o: Advanced,
    n: Advanced,
    overview: bool,
    hardware: bool,
    storage: bool,
    ports: bool,
    access: bool,
) -> bool {
    &&& !overview ==> n.overview == o.overview
    &&& !hardware ==> n.hardware == o.hardware
    &&& !storage ==> n.storage == o.storage
    &&& !ports ==> (n.port_forwarding == o.port_forwarding && n.networks == o.networks)
    &&& !access ==> n.remote_access == o.remote_access
    &&& n.network == o.network
}

/// The action of a key that went to a section, by whether it belongs to a field.
pub open spec fn field_action(to_field: bool) -> AdvancedAction {
    if to_field {
        AdvancedAction::ToField
    } else {
        AdvancedAction::Done
    }
}

/// `n` is the form `o` after `key`, given whether the overview's files
/// exist, and `action` is what the caller does next.
pub open spec fn advanced_after(o: Advanced, n: Advanced, key: Key, cloudinit_exists: bool, boot_file_exists: bool, action: AdvancedAction) -> bool {
    &&& n.storage.wf()
    &&& (action == AdvancedAction::Create ==> n.buildable())
    &&& ({
                if o.storage.new_disk is Some {
                    &&& storage_after(o.storage, n.storage, key, o.hardware.arch, action
                        == AdvancedAction::ToField)
                    &&& action != AdvancedAction::Create
                    &&& same_except(o, n, false, false, true, false, false)
                    &&& n.focused_section == o.focused_section
                } else if o.port_forwarding.new_mapping is Some {
                    &&& port_forwarding_after(
                        o.port_forwarding,
                        n.port_forwarding,
                        o.networks@,
                        n.networks@,
                        key,
                        action == AdvancedAction::ToField,
                    )
                    &&& action != AdvancedAction::Create
                    &&& same_except(o, n, false, false, false, true, false)
                    &&& n.focused_section == o.focused_section
                } else if key == Key::Tab || key == Key::BackTab {
                    let passed = match o.focused_section {
                        Section::Overview => overview_check(
                            o.overview.name@,
                            o.overview.boot_option,
                            o.overview.cloudinit@,
                            cloudinit_exists,
                            o.overview.boot_file@,
                            boot_file_exists,
                        ).3,
                        Section::Hardware => hardware_check(o.hardware),
                        Section::RemoteAccess => access_check(o.remote_access),
                        _ => true,
                    };
                    &&& action == AdvancedAction::Done
                    &&& n.focused_section == if key == Key::Tab {
                        tab_target(o.focused_section, passed)
                    } else {
                        backtab_target(o.focused_section, passed)
                    }
                    &&& match o.focused_section {
                        Section::Overview => {
                            let arch_fix = key == Key::BackTab && passed && overview_os(
                                o.overview.boot_option,
                                o.overview.os,
                                o.overview.debian_release,
                                o.overview.ubuntu_release,
                            ) == Some(LinuxDistro::ArchLinux);
                            &&& overview_validated(
                                o.overview,
                                n.overview,
                                cloudinit_exists,
                                boot_file_exists,
                                passed,
                            )
                            &&& n.hardware == if arch_fix {
                                Hardware { arch: Arch::X86_64, ..o.hardware }
                            } else {
                                o.hardware
                            }
                            &&& same_except(o, n, true, true, false, false, false)
                        },
                        Section::Hardware => {
                            &&& hardware_validated(o.hardware, n.hardware, passed)
                            &&& same_except(o, n, false, true, false, false, false)
                        },
                        Section::RemoteAccess => {
                            &&& vnc_validated(o.remote_access.vnc, n.remote_access.vnc, passed)
                            &&& same_except(o, n, false, false, false, false, true)
                        },
                        _ => same_except(o, n, false, false, false, false, false),
                    }
                } else {
                    &&& n.focused_section == o.focused_section
                    &&& match o.focused_section {
                        Section::Overview => {
                            &&& overview_after(
                                o.overview,
                                n.overview,
                                key,
                                action == AdvancedAction::ToField,
                            )
                            &&& action != AdvancedAction::Create
                            &&& same_except(o, n, true, false, false, false, false)
                        },
                        Section::Hardware => {
                            &&& hardware_after(
                                o.hardware,
                                n.hardware,
                                key,
                                overview_os(
                                    o.overview.boot_option,
                                    o.overview.os,
                                    o.overview.debian_release,
                                    o.overview.ubuntu_release,
                                ),
                                action == AdvancedAction::ToField,
                            )
                            &&& action != AdvancedAction::Create
                            &&& same_except(o, n, false, true, false, false, false)
                        },
                        Section::Storage => {
                            &&& storage_after(
                                o.storage,
                                n.storage,
                                key,
                                o.hardware.arch,
                                action == AdvancedAction::ToField,
                            )
                            &&& action != AdvancedAction::Create
                            &&& same_except(o, n, false, false, true, false, false)
                        },
                        Section::PortForwarding => {
                            &&& port_forwarding_after(
                                o.port_forwarding,
                                n.port_forwarding,
                                o.networks@,
                                n.networks@,
                                key,
                                action == AdvancedAction::ToField,
                            )
                            &&& action != AdvancedAction::Create
                            &&& same_except(o, n, false, false, false, true, false)
                        },
                        Section::RemoteAccess => {
                            &&& vnc_form_after(
                                o.remote_access.vnc,
                                n.remote_access.vnc,
                                key,
                                action == AdvancedAction::ToField,
                            )
                            &&& action != AdvancedAction::Create
                            &&& same_except(o, n, false, false, false, false, true)
                        },
                        Section::Summary => {
                            &&& action == if key == Key::Enter {
                                AdvancedAction::Create
                            } else {
                                AdvancedAction::Done
                            }
                            &&& same_except(o, n, false, false, false, false, false)
                        },
                        Section::Network => {
                            &&& action == AdvancedAction::Done
                            &&& same_except(o, n, false, false, false, false, false)
                        },
                    }
                }
            })
}

impl Advanced {
    /// The form as it opens on a host of architecture `host` (none when unknown).
    pub open spec fn is_new(&self, host: Option<Arch>) -> bool {
        &&& self.focused_section == Section::Overview
        &&& self.overview.section == crate::vmbuilder::overview::Section::Name
        &&& self.overview.name@ == Seq::<char>::empty()
        &&& self.overview.boot_option == crate::vm::BootOption::CloudImage
        &&& self.overview.cloudinit@ == Seq::<char>::empty()
        &&& self.overview.boot_file@ == Seq::<char>::empty()
        &&& self.hardware.arch == match host {
                Some(a) => a,
                None => Arch::X86_64,
            }
        &&& self.hardware.vcpu@ == "1"@
        &&& self.hardware.memory@ == "512"@
        &&& self.hardware.enable_uefi
        &&& self.storage.disks@.len() == 0
        &&& self.storage.selected is None
        &&& self.storage.new_disk is None
        &&& self.network.backend == NetworkBackend::User
        &&& self.networks@.len() == 1
        &&& self.networks@[0]@.backend == NetworkBackend::User
        &&& self.networks@[0]@.nic == Nic::Virtio
        &&& self.networks@[0]@.mac is None
        &&& self.networks@[0]@.port_mappings.len() == 0
        &&& self.port_forwarding.mappings@.len() == 0
        &&& self.port_forwarding.selected is None
        &&& self.port_forwarding.new_mapping is None
        &&& self.remote_access.vnc.enabled
        &&& self.remote_access.vnc.host@ == "127.0.0.1"@
        &&& self.remote_access.vnc.password@ == Seq::<char>::empty()
    }

    /// A fresh form: the overview focused, the host's architecture (x86-64
    /// when unknown), no extra disk, and one user-mode network with a virtio
    /// card and a random identifier.
    pub fn new(host: Option<Arch>) -> (r: Self)
        ensures
            r.is_new(host),
    {
        let network = Network::new();
        let mut networks: Vec<crate::network::Network> = Vec::new();
        networks.push(
            crate::network::Network::new(network.backend(), Nic::Virtio, Vec::new(), None),
        );
        Advanced {
            focused_section: Section::Overview,
            overview: Overview::new(),
            hardware: Hardware::new(host),
            storage: Storage::new(),
            network,
            networks,
            port_forwarding: PortForwarding::new(),
            remote_access: RemoteAccessBuilder::new(),
        }
    }

    /// The form describes a VM: the vCPU count and the memory are numbers
    /// that fit, and an enabled VNC server has a valid address.
    pub open spec fn buildable(&self) -> bool {
        &&& parse_unsigned(self.hardware.vcpu@, 65535) is Some
        &&& parse_unsigned(self.hardware.memory@, 4294967295) is Some
        &&& self.remote_access.vnc.enabled ==> parsed_ipv4(self.remote_access.vnc.host@) is Some
    }

    /// Whether the form describes a VM (see `buildable`).
    pub fn can_build(&self) -> (r: bool)
        ensures
            r == self.buildable(),
    {
        parse_unsigned_str(self.hardware.vcpu.as_str(), 65535).is_some() && parse_unsigned_str(
            self.hardware.memory.as_str(),
            4294967295,
        ).is_some() && (!self.remote_access.vnc.enabled || Ipv4::parse(
            self.remote_access.vnc.host.as_str(),
        ).is_some())
    }

    /// The VM the form describes.
    pub fn build(&self) -> (r: VMBuildData)
        requires
            self.buildable(),
        ensures
            r.boot_option == self.overview.boot_option,
            r.name@ == self.overview.name@,
            opt_view(r.cloudinit) == optional_path(self.overview.cloudinit@),
            opt_view(r.boot_file) == optional_path(self.overview.boot_file@),
            r.os == overview_os(
                self.overview.boot_option,
                self.overview.os,
                self.overview.debian_release,
                self.overview.ubuntu_release,
            ),
            r.vcpu == parse_unsigned(self.hardware.vcpu@, 65535)->0,
            r.memory == parse_unsigned(self.hardware.memory@, 4294967295)->0,
            r.arch == self.hardware.arch,
            r.enable_uefi == self.hardware.enable_uefi,
            network_views(r.networks@) == network_views(self.networks@),
            r.disks@ == self.storage.disks@,
            r.remote_access is Some <==> self.remote_access.vnc.enabled,
            r.remote_access matches Some(a) ==> (a matches crate::access::RemoteAccess::Vnc(v)
                && v.host == parsed_ipv4(self.remote_access.vnc.host@)->0 && match v.password {
                Some(p) => self.remote_access.vnc.password@.len() > 0 && p@
                    == self.remote_access.vnc.password@,
                None => self.remote_access.vnc.password@.len() == 0,
            }),
    {
        VMBuildData {
            boot_option: self.overview.boot_option(),
            name: self.overview.name(),
            cloudinit: self.overview.cloudinit(),
            boot_file: self.overview.boot_file(),
            os: self.overview.os(),
            vcpu: self.hardware.vcpu(),
            memory: self.hardware.memory(),
            arch: self.hardware.arch(),
            enable_uefi: self.hardware.enable_uefi(),
            networks: duplicate_networks(&self.networks),
            disks: self.storage.disks(),
            remote_access: self.remote_access.access(),
        }
    }

    /// Checks the overview, given whether its two files exist.
    pub fn validate_overview_section(&mut self, cloudinit_exists: bool, boot_file_exists: bool) -> (valid:
        bool)
        ensures
            overview_validated(
                old(self).overview,
                final(self).overview,
                cloudinit_exists,
                boot_file_exists,
                valid,
            ),
            same_except(*old(self), *final(self), true, false, false, false, false),
            final(self).focused_section == old(self).focused_section,
    {
        self.overview.validate(cloudinit_exists, boot_file_exists)
    }

    /// Checks the hardware section.
    pub fn validate_harware_section(&mut self) -> (valid: bool)
        ensures
            hardware_validated(old(self).hardware, final(self).hardware, valid),
            same_except(*old(self), *final(self), false, true, false, false, false),
            final(self).focused_section == old(self).focused_section,
    {
        self.hardware.validate()
    }

    /// Checks the remote access section.
    pub fn validate_remote_access(&mut self) -> (valid: bool)
        ensures
            vnc_validated(old(self).remote_access.vnc, final(self).remote_access.vnc, valid),
            same_except(*old(self), *final(self), false, false, false, false, true),
            final(self).focused_section == old(self).focused_section,
    {
        self.remote_access.validate()
    }

    /// The key can be handled without a fault: the disk list and the rule
    /// list it reaches accept it, and Enter on the summary finds a form that
    /// describes a VM.
    pub open spec fn key_ok(&self, key: Key) -> bool {
        let storage_popup = self.storage.new_disk is Some;
        let port_popup = self.port_forwarding.new_mapping is Some;
        let moves = key == Key::Tab || key == Key::BackTab;
        &&& self.storage.wf()
        &&& self.storage.disks@.len() < usize::MAX
        &&& (!storage_popup && (port_popup || (!moves && self.focused_section
            == Section::PortForwarding))) ==> self.port_forwarding.key_ok(
            key,
            self.networks@.len(),
        )
        &&& (!storage_popup && !port_popup && !moves && self.focused_section == Section::Summary
            && key == Key::Enter) ==> self.buildable()
    }

    /// Reacts to a key, given whether the overview's cloud-init file and boot
    /// file exist. An open disk or rule form takes every key. Otherwise Tab
    /// and BackTab move between the sections, checking the overview, the
    /// hardware and the remote access sections before leaving them (BackTab
    /// from the overview sets x86-64 for Arch Linux); other keys go to the
    /// focused section, and Enter on the summary asks for the VM.
    pub fn handle_key_events(&mut self, key: Key, cloudinit_exists: bool, boot_file_exists: bool) -> (action:
        AdvancedAction)
        requires
            old(self).key_ok(key),
        ensures
            advanced_after(*old(self), *final(self), key, cloudinit_exists, boot_file_exists, action),
    {
        if self.storage.new_disk_popup() {
            let arch = self.hardware.arch();
            let to_field = self.storage.handle_key_events(key, arch);
            return field_action_of(to_field);
        }
        if self.port_forwarding.new_mapping_popup() {
            let to_field = self.port_forwarding.handle_key_events(key, &mut self.networks);
            return field_action_of(to_field);
        }
        if key == Key::Tab {
            match self.focused_section {
                Section::Overview => {
                    if self.validate_overview_section(cloudinit_exists, boot_file_exists) {
                        self.focused_section = Section::Hardware;
                    }
                },
                Section::Hardware => {
                    if self.validate_harware_section() {
                        self.focused_section = Section::Storage;
                    }
                },
                Section::Storage => {
                    self.focused_section = Section::Network;
                },
                Section::Network => {
                    self.focused_section = Section::PortForwarding;
                },
                Section::PortForwarding => {
                    self.focused_section = Section::RemoteAccess;
                },
                Section::RemoteAccess => {
                    if self.validate_remote_access() {
                        self.focused_section = Section::Summary;
                    }
                },
                Section::Summary => {
                    self.focused_section = Section::Overview;
                },
            }
            return AdvancedAction::Done;
        }
        if key == Key::BackTab {
            match self.focused_section {
                Section::Overview => {
                    if self.validate_overview_section(cloudinit_exists, boot_file_exists) {
                        if self.overview.os() == Some(LinuxDistro::ArchLinux) {
                            self.hardware.set_arch(Arch::X86_64);
                        }
                        self.focused_section = Section::Summary;
                    }
                },
                Section::Hardware => {
                    if self.validate_harware_section() {
                        self.focused_section = Section::Overview;
                    }
                },
                Section::Storage => {
                    self.focused_section = Section::Hardware;
                },
                Section::Network => {
                    self.focused_section = Section::Storage;
                },
                Section::PortForwarding => {
                    self.focused_section = Section::Network;
                },
                Section::RemoteAccess => {
                    if self.validate_remote_access() {
                        self.focused_section = Section::PortForwarding;
                    }
                },
                Section::Summary => {
                    self.focused_section = Section::RemoteAccess;
                },
            }
            return AdvancedAction::Done;
        }
        match self.focused_section {
            Section::Overview => field_action_of(self.overview.handle_key_events(key)),
            Section::Hardware => {
                let os = self.overview.os();
                field_action_of(self.hardware.handle_key_events(key, os))
            },
            Section::Storage => {
                let arch = self.hardware.arch();
                field_action_of(self.storage.handle_key_events(key, arch))
            },
            Section::Network => AdvancedAction::Done,
            Section::PortForwarding => {
                field_action_of(self.port_forwarding.handle_key_events(key, &mut self.networks))
            },
            Section::RemoteAccess => field_action_of(self.remote_access.handle_key_events(key)),
            Section::Summary => {
                if key == Key::Enter {
                    AdvancedAction::Create
                } else {
                    AdvancedAction::Done
                }
            },
        }
    }
}

fn field_action_of(to_field: bool) -> (r: AdvancedAction)
    ensures
        r == field_action(to_field),
{
    if to_field {
        AdvancedAction::ToField
    } else {
        AdvancedAction::Done
    }
}

/// Tab then BackTab from the storage or the network section, with no form
/// open, returns to that section and leaves the sections as they were.
pub proof fn lemma_advanced_tab_back(
    a0: Advanced,
    a1: Advanced,
    a2: Advanced,
    cloudinit_exists: bool,
    boot_file_exists: bool,
    r1: AdvancedAction,
    r2: AdvancedAction,
)
    requires
        a0.storage.new_disk is None,
        a0.port_forwarding.new_mapping is None,
        a0.focused_section == Section::Storage || a0.focused_section == Section::Network,
        advanced_after(a0, a1, Key::Tab, cloudinit_exists, boot_file_exists, r1),
        advanced_after(a1, a2, Key::BackTab, cloudinit_exists, boot_file_exists, r2),
    ensures
        a2.focused_section == a0.focused_section,
        same_except(a0, a2, false, false, false, false, false),
{
}

} // verus!
