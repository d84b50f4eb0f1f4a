//! The quick VM creation form: a cloud image, a user, vCPUs and memory.
use vstd::prelude::*;
use vstd::string::*;

use crate::distro::LinuxDistro;
use crate::distro::debian::DebianRelease;
use crate::distro::ubuntu::UbuntuRelease;
use crate::edit::{edit_field, typed, untouched};
use crate::key::{Key, is_left, is_right};
use crate::network::port_forwarding::opt_view;
use crate::arch::{Arch, arch_from_name};
use crate::network::{Network, NetworkBackend, Nic};
use crate::text::{parse_unsigned, parse_unsigned_str};
use crate::vm::BootOption;
use crate::vmbuilder::{VMBuildData, memory_mib_field_error, number_field_check, vcpu_field_error};

verus! {

/// The form section that has the focus.
#[derive(Debug, Clone, Copy, PartialEq, Eq, Structural)]
pub enum Section {
    Name,
    Os,
    Release,
    Cpu,
    Memory,
    Username,
    Password,
    Create,
}

/// What the caller does after a key.
#[derive(Debug, Clone, Copy, PartialEq, Eq, Structural)]
pub enum QuickAction {
    /// Nothing more.
    Done,
    /// The key went to the focused text field and edited it.
    ToField,
    /// The form was confirmed and is valid: create the VM.
    Create,
}

/// The quick creation form.
#[derive(Debug, Clone)]
pub struct Quick {
    pub section: Section,
    pub name: String,
    pub name_cursor: usize,
    pub name_error: Option<String>,
    pub os: LinuxDistro,
    pub vcpu: String,
    pub vcpu_cursor: usize,
    pub vcpu_error: Option<String>,
    pub memory: String,
    pub memory_cursor: usize,
    pub memory_error: Option<String>,
    pub username: String,
    pub username_cursor: usize,
    pub password: String,
    pub password_cursor: usize,
    pub ubuntu_release: UbuntuRelease,
    pub debian_release: DebianRelease,
}

/// The section after `s` in the form's order, wrapping around.
pub open spec fn quick_next(s: Section) -> Section {
    match s {
        Section::Name => Section::Os,
        Section::Os => Section::Release,
        Section::Release => Section::Cpu,
        Section::Cpu => Section::Memory,
        Section::Memory => Section::Username,
        Section::Username => Section::Password,
        Section::Password => Section::Create,
        Section::Create => Section::Name,
    }
}

/// The section before `s` in the form's order, wrapping around.
pub open spec fn quick_prev(s: Section) -> Section {
    match s {
        Section::Name => Section::Create,
        Section::Os => Section::Name,
        Section::Release => Section::Os,
        Section::Cpu => Section::Release,
        Section::Memory => Section::Cpu,
        Section::Username => Section::Memory,
        Section::Password => Section::Username,
        Section::Create => Section::Password,
    }
}

/// The distribution after a side key on the distribution section; a new
/// choice starts at its default release.
pub open spec fn quick_next_os(os: LinuxDistro, key: Key) -> LinuxDistro {
    if is_left(key) {
        match os {
            LinuxDistro::Debian(_) => LinuxDistro::Ubuntu(UbuntuRelease::Resolute),
            LinuxDistro::Ubuntu(_) => LinuxDistro::ArchLinux,
            LinuxDistro::ArchLinux => LinuxDistro::Debian(DebianRelease::Trixie),
        }
    } else if is_right(key) {
        match os {
            LinuxDistro::Debian(_) => LinuxDistro::ArchLinux,
            LinuxDistro::Ubuntu(_) => LinuxDistro::Debian(DebianRelease::Trixie),
            LinuxDistro::ArchLinux => LinuxDistro::Ubuntu(UbuntuRelease::Resolute),
        }
    } else {
        os
    }
}

/// The Debian release after a side key.
pub open spec fn next_debian(r: DebianRelease, key: Key) -> DebianRelease {
    if is_right(key) {
        match r {
            DebianRelease::Trixie => DebianRelease::Bookworm,
            DebianRelease::Bookworm => DebianRelease::Forky,
            DebianRelease::Forky => DebianRelease::Trixie,
        }
    } else if is_left(key) {
        match r {
            DebianRelease::Trixie => DebianRelease::Forky,
            DebianRelease::Bookworm => DebianRelease::Trixie,
            DebianRelease::Forky => DebianRelease::Bookworm,
        }
    } else {
        r
    }
}

/// The Ubuntu release after a side key.
pub open spec fn next_ubuntu(r: UbuntuRelease, key: Key) -> UbuntuRelease {
    if is_right(key) {
        match r {
            UbuntuRelease::Resolute => UbuntuRelease::Noble,
            UbuntuRelease::Noble => UbuntuRelease::Jammy,
            UbuntuRelease::Jammy => UbuntuRelease::Resolute,
        }
    } else if is_left(key) {
        match r {
            UbuntuRelease::Resolute => UbuntuRelease::Jammy,
            UbuntuRelease::Noble => UbuntuRelease::Resolute,
            UbuntuRelease::Jammy => UbuntuRelease::Noble,
        }
    } else {
        r
    }
}

/// The form's values are accepted: a name, and a valid vCPU count and memory.
pub open spec fn quick_valid(name: Seq<char>, vcpu: Seq<char>, memory: Seq<char>) -> bool {
    name.len() > 0 && vcpu_field_error(vcpu) is None && memory_mib_field_error(memory) is None
}

/// The new value of an error that a check sets but never clears.
pub open spec fn sticky_error(old_error: Option<String>, e: Option<Seq<char>>) -> Option<Seq<char>> {
    match e {
        Some(m) => Some(m),
        None => opt_view(old_error),
    }
}

/// A Debian section's key moves cycle the release.
pub fn cycle_debian(r: DebianRelease, key: Key) -> (n: DebianRelease)
    ensures
        n == next_debian(r, key),
{
    if key.right() {
        match r {
            DebianRelease::Trixie => DebianRelease::Bookworm,
            DebianRelease::Bookworm => DebianRelease::Forky,
            DebianRelease::Forky => DebianRelease::Trixie,
        }
    } else if key.left() {
        match r {
            DebianRelease::Trixie => DebianRelease::Forky,
            DebianRelease::Bookworm => DebianRelease::Trixie,
            DebianRelease::Forky => DebianRelease::Bookworm,
        }
    } else {
        r
    }
}

/// An Ubuntu section's key moves cycle the release.
pub fn cycle_ubuntu(r: UbuntuRelease, key: Key) -> (n: UbuntuRelease)
    ensures
        n == next_ubuntu(r, key),
{
    if key.right() {
        match r {
            UbuntuRelease::Resolute => UbuntuRelease::Noble,
            UbuntuRelease::Noble => UbuntuRelease::Jammy,
            UbuntuRelease::Jammy => UbuntuRelease::Resolute,
        }
    } else if key.left() {
        match r {
            UbuntuRelease::Resolute => UbuntuRelease::Jammy,
            UbuntuRelease::Noble => UbuntuRelease::Resolute,
            UbuntuRelease::Jammy => UbuntuRelease::Noble,
        }
    } else {
        r
    }
}

/// `n` is the form `o` after `key`, and `action` is what the caller does next.
pub open spec fn quick_after(o: Quick, n: Quick, key: Key, action: QuickAction) -> bool {
    &&& n.section == if key == Key::Tab || key == Key::Down {
                quick_next(o.section)
            } else if key == Key::BackTab || key == Key::Up {
                quick_prev(o.section)
            } else {
                o.section
            }
    &&& ({
                let moves = key == Key::Tab || key == Key::Down || key == Key::BackTab || key
                    == Key::Up;
                &&& n.os == if !moves && o.section == Section::Os {
                    quick_next_os(o.os, key)
                } else {
                    o.os
                }
                &&& n.debian_release == if !moves && o.section
                    == Section::Release && o.os is Debian {
                    next_debian(o.debian_release, key)
                } else {
                    o.debian_release
                }
                &&& n.ubuntu_release == if !moves && o.section
                    == Section::Release && o.os is Ubuntu {
                    next_ubuntu(o.ubuntu_release, key)
                } else {
                    o.ubuntu_release
                }
                &&& action == if moves {
                    QuickAction::Done
                } else {
                    match o.section {
                        Section::Name | Section::Cpu | Section::Memory
                        | Section::Username | Section::Password => QuickAction::ToField,
                        Section::Create => if key == Key::Enter && quick_valid(
                            o.name@,
                            o.vcpu@,
                            o.memory@,
                        ) {
                            QuickAction::Create
                        } else {
                            QuickAction::Done
                        },
                        _ => QuickAction::Done,
                    }
                }
                &&& (!moves && o.section == Section::Create && key == Key::Enter)
                    ==> opt_view(n.name_error) == (if o.name@.len() == 0 {
                    Some("Field required"@)
                } else {
                    None
                })
                &&& !(!moves && o.section == Section::Create && key == Key::Enter)
                    ==> n.name_error == o.name_error
                &&& (!moves && o.section == Section::Create && key == Key::Enter) ==> {
                    &&& opt_view(n.vcpu_error) == sticky_error(
                        o.vcpu_error,
                        vcpu_field_error(o.vcpu@),
                    )
                    &&& opt_view(n.memory_error) == sticky_error(
                        o.memory_error,
                        memory_mib_field_error(o.memory@),
                    )
                }
                &&& !(!moves && o.section == Section::Create && key == Key::Enter) ==> {
                    &&& n.vcpu_error == o.vcpu_error
                    &&& n.memory_error == o.memory_error
                }
            })
    &&& quick_field_after(o.name, o.name_cursor, n.name, n.name_cursor, key, o.section, Section::Name)
    &&& quick_field_after(o.vcpu, o.vcpu_cursor, n.vcpu, n.vcpu_cursor, key, o.section, Section::Cpu)
    &&& quick_field_after(o.memory, o.memory_cursor, n.memory, n.memory_cursor, key, o.section, Section::Memory)
    &&& quick_field_after(
        o.username,
        o.username_cursor,
        n.username,
        n.username_cursor,
        key,
        o.section,
        Section::Username,
    )
    &&& quick_field_after(
        o.password,
        o.password_cursor,
        n.password,
        n.password_cursor,
        key,
        o.section,
        Section::Password,
    )
}

/// The text field of section `f` after `key`, with the focus on `s`: a key
/// that is no move edits the field when it has the focus.
pub open spec fn quick_field_after(
    o: String,
    oc: usize,
    n: String,
    nc: usize,
    key: Key,
    s: Section,
    f: Section,
) -> bool {
    if s == f && !(key == Key::Tab || key == Key::Down || key == Key::BackTab || key == Key::Up) {
        typed(o, oc, n, nc, key)
    } else {
        untouched(o, oc, n, nc)
    }
}

impl Default for Quick {
    /// The empty quick form (see `Quick::new`).
    fn default() -> (r: Self)
        ensures
            r.is_new(),
    {
        Quick::new()
    }
}

impl Quick {
    /// The form as it opens.
    pub open spec fn is_new(&self) -> bool {
        &&& self.section == Section::Name
        &&& self.name@ == Seq::<char>::empty()
        &&& self.name_cursor == 0
        &&& self.vcpu_cursor == 1
        &&& self.memory_cursor == 3
        &&& self.username_cursor == 4
        &&& self.password_cursor == 4
        &&& self.os == LinuxDistro::Debian(DebianRelease::Trixie)
        &&& self.vcpu@ == "1"@
        &&& self.memory@ == "512"@
        &&& self.username@ == "kudu"@
        &&& self.password@ == "kudu"@
        &&& self.ubuntu_release == UbuntuRelease::Resolute
        &&& self.debian_release == DebianRelease::Trixie
        &&& self.name_error is None && self.vcpu_error is None && self.memory_error is None
    }

    /// An unnamed Debian VM with one vCPU, 512 MiB and the user `kudu`
    /// (password `kudu`).
    pub fn new() -> (r: Self)
        ensures
            r.is_new(),
    {
        Quick {
            section: Section::Name,
            name: String::new(),
            name_cursor: 0,
            name_error: None,
            os: LinuxDistro::Debian(DebianRelease::Trixie),
            vcpu: String::from_str("1"),
            vcpu_cursor: 1,
            vcpu_error: None,
            memory: String::from_str("512"),
            memory_cursor: 3,
            memory_error: None,
            username: String::from_str("kudu"),
            username_cursor: 4,
            password: String::from_str("kudu"),
            password_cursor: 4,
            ubuntu_release: UbuntuRelease::Resolute,
            debian_release: DebianRelease::Trixie,
        }
    }

    /// The distribution chosen (its release is the default one of the
    /// distribution; the release section does not change it).
    pub fn os(&self) -> (r: LinuxDistro)
        ensures
            r == self.os,
    {
        self.os
    }

    /// The typed name.
    pub fn name(&self) -> (r: String)
        ensures
            r@ == self.name@,
    {
        self.name.clone()
    }

    /// The typed vCPU count.
    pub fn vcpu(&self) -> (r: u16)
        requires
            parse_unsigned(self.vcpu@, 65535) is Some,
        ensures
            r == parse_unsigned(self.vcpu@, 65535)->0,
    {
        parse_unsigned_str(self.vcpu.as_str(), 65535).unwrap() as u16
    }

    /// The typed memory, in MiB.
    pub fn memory(&self) -> (r: u32)
        requires
            parse_unsigned(self.memory@, 4294967295) is Some,
        ensures
            r == parse_unsigned(self.memory@, 4294967295)->0,
    {
        parse_unsigned_str(self.memory.as_str(), 4294967295).unwrap() as u32
    }

    /// The VM's architecture: the host's, named `host`, when it is a known
    /// one, x86-64 otherwise.
    pub fn arch(host: &str) -> (r: Arch)
        ensures
            r == match arch_from_name(host@) {
                Some(a) => a,
                None => Arch::X86_64,
            },
    {
        match Arch::try_from(host) {
            Ok(a) => a,
            Err(_) => Arch::default(),
        }
    }

    /// The typed user name.
    pub fn username(&self) -> (r: String)
        ensures
            r@ == self.username@,
    {
        self.username.clone()
    }

    /// The typed password.
    pub fn password(&self) -> (r: String)
        ensures
            r@ == self.password@,
    {
        self.password.clone()
    }

    /// The VM the form describes, on a host named `host`, booting the chosen
    /// distribution's cloud image with UEFI, with the cloud-init file
    /// `cloudinit` and one user-mode network.
    pub fn build(&self, host: &str, cloudinit: String) -> (r: VMBuildData)
        requires
            parse_unsigned(self.vcpu@, 65535) is Some,
            parse_unsigned(self.memory@, 4294967295) is Some,
        ensures
            r.boot_option == BootOption::CloudImage,
            r.name@ == self.name@,
            r.boot_file is None,
            r.os == Some(self.os),
            r.vcpu == parse_unsigned(self.vcpu@, 65535)->0,
            r.memory == parse_unsigned(self.memory@, 4294967295)->0,
            r.arch == match arch_from_name(host@) {
                Some(a) => a,
                None => Arch::X86_64,
            },
            r.enable_uefi,
            r.networks@.len() == 1,
            r.networks@[0]@.backend == NetworkBackend::User,
            r.networks@[0]@.nic == Nic::Virtio,
            r.networks@[0]@.mac is None,
            r.networks@[0]@.port_mappings.len() == 0,
            r.disks@.len() == 0,
            r.cloudinit matches Some(c) && c@ == cloudinit@,
            r.remote_access is None,
    {
        let mut networks: Vec<Network> = Vec::new();
        networks.push(Network::default());
        VMBuildData {
            boot_option: BootOption::CloudImage,
            name: self.name(),
            boot_file: None,
            os: Some(self.os()),
            vcpu: self.vcpu(),
            memory: self.memory(),
            arch: Quick::arch(host),
            enable_uefi: true,
            networks,
            disks: Vec::new(),
            cloudinit: Some(cloudinit),
            remote_access: None,
        }
    }

    /// Checks the name, the vCPU count and the memory and records their errors;
    /// true when there is none. Only the name's error is cleared first.
    pub fn validate(&mut self) -> (valid: bool)
        ensures
            valid == quick_valid(old(self).name@, old(self).vcpu@, old(self).memory@),
            opt_view(final(self).name_error) == if old(self).name@.len() == 0 {
                Some("Field required"@)
            } else {
                None
            },
            opt_view(final(self).vcpu_error) == sticky_error(
                old(self).vcpu_error,
                vcpu_field_error(old(self).vcpu@),
            ),
            opt_view(final(self).memory_error) == sticky_error(
                old(self).memory_error,
                memory_mib_field_error(old(self).memory@),
            ),
            final(self).section == old(self).section,
            final(self).name == old(self).name,
            final(self).os == old(self).os,
            final(self).vcpu == old(self).vcpu,
            final(self).memory == old(self).memory,
            final(self).username == old(self).username,
            final(self).password == old(self).password,
            final(self).name_cursor == old(self).name_cursor,
            final(self).vcpu_cursor == old(self).vcpu_cursor,
            final(self).memory_cursor == old(self).memory_cursor,
            final(self).username_cursor == old(self).username_cursor,
            final(self).password_cursor == old(self).password_cursor,
            final(self).ubuntu_release == old(self).ubuntu_release,
            final(self).debian_release == old(self).debian_release,
    {
        let mut valid = true;
        self.name_error = None;
        if self.name.as_str().unicode_len() == 0 {
            self.name_error = Some(String::from_str("Field required"));
            valid = false;
        }
        let v = number_field_check(
            self.vcpu.as_str(),
            65535,
            "vcpu value can not be 0",
            "vcpu value should be a number",
        );
        if v.is_some() {
            self.vcpu_error = v;
            valid = false;
        }
        let m = number_field_check(
            self.memory.as_str(),
            4294967295,
            "Memory value can not be 0",
            "Memory value should be a number",
        );
        if m.is_some() {
            self.memory_error = m;
            valid = false;
        }
        valid
    }

    /// Reacts to a key: Tab and Down move to the next section, BackTab and Up
    /// to the previous one; the side keys change the distribution or its
    /// release; other keys edit the focused text field; Enter on Create asks
    /// for the VM when the form is valid (the check records its errors).
    pub fn handle_key_events(&mut self, key: Key) -> (action: QuickAction)
        ensures
            quick_after(*old(self), *final(self), key, action),
    {
        if key == Key::Tab || key == Key::Down {
            self.section = match self.section {
                Section::Name => Section::Os,
                Section::Os => Section::Release,
                Section::Release => Section::Cpu,
                Section::Cpu => Section::Memory,
                Section::Memory => Section::Username,
                Section::Username => Section::Password,
                Section::Password => Section::Create,
                Section::Create => Section::Name,
            };
            return QuickAction::Done;
        }
        if key == Key::BackTab || key == Key::Up {
            self.section = match self.section {
                Section::Name => Section::Create,
                Section::Os => Section::Name,
                Section::Release => Section::Os,
                Section::Cpu => Section::Release,
                Section::Memory => Section::Cpu,
                Section::Username => Section::Memory,
                Section::Password => Section::Username,
                Section::Create => Section::Password,
            };
            return QuickAction::Done;
        }
        match self.section {
            Section::Os => {
                if key.left() {
                    self.os = match self.os {
                        LinuxDistro::Debian(_) => LinuxDistro::Ubuntu(UbuntuRelease::Resolute),
                        LinuxDistro::Ubuntu(_) => LinuxDistro::ArchLinux,
                        LinuxDistro::ArchLinux => LinuxDistro::Debian(DebianRelease::Trixie),
                    };
                } else if key.right() {
                    self.os = match self.os {
                        LinuxDistro::Debian(_) => LinuxDistro::ArchLinux,
                        LinuxDistro::Ubuntu(_) => LinuxDistro::Debian(DebianRelease::Trixie),
                        LinuxDistro::ArchLinux => LinuxDistro::Ubuntu(UbuntuRelease::Resolute),
                    };
                }
                QuickAction::Done
            },
            Section::Release => {
                match self.os {
                    LinuxDistro::Debian(_) => {
                        self.debian_release = cycle_debian(self.debian_release, key);
                    },
                    LinuxDistro::Ubuntu(_) => {
                        self.ubuntu_release = cycle_ubuntu(self.ubuntu_release, key);
                    },
                    LinuxDistro::ArchLinux => {},
                }
                QuickAction::Done
            },
            Section::Create => {
                if key == Key::Enter && self.validate() {
                    QuickAction::Create
                } else {
                    QuickAction::Done
                }
            },
            Section::Name => {
                edit_field(&mut self.name, &mut self.name_cursor, key);
                QuickAction::ToField
            },
            Section::Cpu => {
                edit_field(&mut self.vcpu, &mut self.vcpu_cursor, key);
                QuickAction::ToField
            },
            Section::Memory => {
                edit_field(&mut self.memory, &mut self.memory_cursor, key);
                QuickAction::ToField
            },
            Section::Username => {
                edit_field(&mut self.username, &mut self.username_cursor, key);
                QuickAction::ToField
            },
            Section::Password => {
                edit_field(&mut self.password, &mut self.password_cursor, key);
                QuickAction::ToField
            },
        }
    }
}

/// Moving the focus forward (Tab or Down) then back (BackTab or Up), or back
/// then forward, gives back the same form: the focus returns where it was
/// and nothing else changes.
pub proof fn lemma_quick_back_and_forth(
    q0: Quick,
    q1: Quick,
    q2: Quick,
    k1: Key,
    k2: Key,
    a1: QuickAction,
    a2: QuickAction,
)
    requires
        ((k1 == Key::Tab || k1 == Key::Down) && (k2 == Key::BackTab || k2 == Key::Up)) || ((k1
            == Key::BackTab || k1 == Key::Up) && (k2 == Key::Tab || k2 == Key::Down)),
        quick_after(q0, q1, k1, a1),
        quick_after(q1, q2, k2, a2),
    ensures
        q2 == q0,
        a1 == QuickAction::Done,
        a2 == QuickAction::Done,
{
}

} // verus!
