//! The forms that create a VM.
pub mod access;
pub mod advanced;
pub mod fs;
pub mod hardware;
pub mod network;
pub mod overview;
pub mod port;
pub mod storage;
pub mod quick;

use vstd::prelude::*;
use vstd::string::*;

use crate::access::RemoteAccess;
use crate::arch::Arch;
use crate::distro::LinuxDistro;
use crate::network::Network;
use crate::storage::Disk;
use crate::text::{parse_unsigned, parse_unsigned_str};
use crate::confirmation::cancel::CancelConfirmation;
use crate::key::{Key, is_down, is_left, is_right, is_up};
use crate::vm::BootOption;
use advanced::{Advanced, AdvancedAction, advanced_after};
use quick::{Quick, QuickAction, quick_after};

verus! {

/// Everything needed to create a VM, as a form describes it. The file paths
/// are as typed.
#[derive(Debug)]
pub struct VMBuildData {
    pub boot_option: BootOption,
    pub arch: Arch,
    pub name: String,
    pub cloudinit: Option<String>,
    pub boot_file: Option<String>,
    pub os: Option<LinuxDistro>,
    pub vcpu: u16,
    pub memory: u32,
    pub networks: Vec<Network>,
    pub enable_uefi: bool,
    pub disks: Vec<Disk>,
    pub remote_access: Option<RemoteAccess>,
}

/// The kind of form chosen.
#[derive(Debug, Clone, Copy, PartialEq, Eq, Structural)]
pub enum Section {
    Quick,
    Advanced,
}

/// What the caller does after a key.
#[derive(Debug, Clone, Copy, PartialEq, Eq, Structural)]
pub enum BuilderAction {
    /// Nothing more.
    Done,
    /// The key went to the focused text field of the open form and edited it.
    ToField,
    /// The creation is dropped (true) or goes on (false).
    Cancel(bool),
    /// Create the VM that `build` describes.
    Create,
}

/// Where VMs are created: the choice between the two forms, the chosen form,
/// and the question asked before dropping it.
#[derive(Debug)]
pub struct VMBuilder {
    pub section: Section,
    pub advanced: Option<Advanced>,
    pub quick: Option<Quick>,
    pub cancel_confirmation: Option<CancelConfirmation>,
}

/// What the advanced form asked, given the caller's action.
pub open spec fn to_advanced(a: BuilderAction) -> AdvancedAction {
    match a {
        BuilderAction::ToField => AdvancedAction::ToField,
        BuilderAction::Create => AdvancedAction::Create,
        _ => AdvancedAction::Done,
    }
}

/// What the quick form asked, given the caller's action.
pub open spec fn to_quick(a: BuilderAction) -> QuickAction {
    match a {
        BuilderAction::ToField => QuickAction::ToField,
        BuilderAction::Create => QuickAction::Create,
        _ => QuickAction::Done,
    }
}

/// A key that flips the choice between the two forms.
pub open spec fn flips_choice(key: Key) -> bool {
    key == Key::Tab || key == Key::BackTab || is_down(key) || is_up(key)
}

impl Default for VMBuilder {
    /// The choice between the forms (see `VMBuilder::new`).
    fn default() -> (r: Self)
        ensures
            r.section == Section::Quick,
            r.advanced is None,
            r.quick is None,
            r.cancel_confirmation is None,
            r.wf(),
    {
        VMBuilder::new()
    }
}

impl VMBuilder {
    /// The choice between the forms, the quick one highlighted.
    pub fn new() -> (r: Self)
        ensures
            r.section == Section::Quick,
            r.advanced is None,
            r.quick is None,
            r.cancel_confirmation is None,
            r.wf(),
    {
        VMBuilder { section: Section::Quick, advanced: None, quick: None, cancel_confirmation: None }
    }

    /// The open form is the chosen kind, and at most one is open.
    pub open spec fn wf(&self) -> bool {
        &&& self.advanced is Some ==> (self.section == Section::Advanced && self.quick is None)
        &&& self.quick is Some ==> self.section == Section::Quick
    }

    /// The chosen form describes a VM.
    pub open spec fn buildable(&self) -> bool {
        match self.section {
            Section::Quick => self.quick matches Some(q) && parse_unsigned(q.vcpu@, 65535) is Some
                && parse_unsigned(q.memory@, 4294967295) is Some,
            Section::Advanced => self.advanced matches Some(a) && a.buildable(),
        }
    }

    /// The VM the chosen form describes, on a host named `host`; the quick
    /// form's VM gets the cloud-init file `cloudinit`.
    pub fn build(&self, host: &str, cloudinit: String) -> (r: VMBuildData)
        requires
            self.buildable(),
        ensures
            self.section == Section::Quick ==> (r.cloudinit matches Some(c) && c@ == cloudinit@),
            self.section == Section::Quick ==> r.name@ == self.quick->0.name@,
            self.section == Section::Advanced ==> r.name@ == self.advanced->0.overview.name@,
    {
        match self.section {
            Section::Quick => match &self.quick {
                Some(q) => q.build(host, cloudinit),
                None => {
                    assert(false);
                    Quick::new().build(host, cloudinit)
                },
            },
            Section::Advanced => match &self.advanced {
                Some(a) => a.build(),
                None => {
                    assert(false);
                    Quick::new().build(host, cloudinit)
                },
            },
        }
    }

    /// The key can be handled without a fault (see `Advanced::key_ok`).
    pub open spec fn key_ok(&self, key: Key) -> bool {
        match self.advanced {
            Some(a) => (self.cancel_confirmation is None && (a.storage.new_disk is Some
                || a.port_forwarding.new_mapping is Some || key != Key::Esc)) ==> a.key_ok(key),
            None => true,
        }
    }

    /// Reacts to a key, on a host of architecture `host` (none when unknown),
    /// given whether the advanced form's cloud-init file and boot file exist.
    /// While the question is asked, Esc takes it back and other keys go to
    /// it. An open disk or rule form takes every key; otherwise Esc asks the
    /// question (or drops the creation while no form is chosen), and other
    /// keys go to the chosen form, or choose one.
    pub fn handle_key_events(
        &mut self,
        key: Key,
        host: Option<Arch>,
        cloudinit_exists: bool,
        boot_file_exists: bool,
    ) -> (action: BuilderAction)
        requires
            old(self).wf(),
            old(self).key_ok(key),
        ensures
            final(self).wf(),
            final(self).section == old(self).section || (old(self).cancel_confirmation is None
                && old(self).advanced is None && old(self).quick is None),
            match old(self).cancel_confirmation {
                Some(c) => if key == Key::Esc {
                    &&& final(self).cancel_confirmation is None
                    &&& final(self).advanced == old(self).advanced
                    &&& final(self).quick == old(self).quick
                    &&& action == BuilderAction::Done
                } else {
                    &&& (final(self).cancel_confirmation matches Some(d) && d.choice == (c.choice
                        != (is_left(key) || is_right(key))))
                    &&& final(self).advanced == old(self).advanced
                    &&& final(self).quick == old(self).quick
                    &&& action == if key == Key::Enter {
                        BuilderAction::Cancel(c.choice)
                    } else {
                        BuilderAction::Done
                    }
                },
                None => {
                    let popup = old(self).advanced matches Some(a) && (a.storage.new_disk is Some
                        || a.port_forwarding.new_mapping is Some);
                    if !popup && key == Key::Esc {
                        &&& final(self).advanced == old(self).advanced
                        &&& final(self).quick == old(self).quick
                        &&& if old(self).advanced is Some || old(self).quick is Some {
                            &&& (final(self).cancel_confirmation matches Some(d) && !d.choice)
                            &&& action == BuilderAction::Done
                        } else {
                            &&& final(self).cancel_confirmation is None
                            &&& action == BuilderAction::Cancel(true)
                        }
                    } else if old(self).advanced is Some {
                        &&& final(self).cancel_confirmation is None
                        &&& final(self).quick == old(self).quick
                        &&& !(action is Cancel)
                        &&& (final(self).advanced matches Some(n) && advanced_after(
                            old(self).advanced->0,
                            n,
                            key,
                            cloudinit_exists,
                            boot_file_exists,
                            to_advanced(action),
                        ))
                    } else if old(self).quick is Some {
                        &&& final(self).cancel_confirmation is None
                        &&& final(self).advanced is None
                        &&& !(action is Cancel)
                        &&& (final(self).quick matches Some(n) && quick_after(
                            old(self).quick->0,
                            n,
                            key,
                            to_quick(action),
                        ))
                    } else {
                        &&& final(self).cancel_confirmation is None
                        &&& action == BuilderAction::Done
                        &&& final(self).section == if flips_choice(key) {
                            match old(self).section {
                                Section::Quick => Section::Advanced,
                                Section::Advanced => Section::Quick,
                            }
                        } else {
                            old(self).section
                        }
                        &&& if key == Key::Enter && old(self).section == Section::Quick {
                            &&& (final(self).quick matches Some(q) && q.is_new())
                            &&& final(self).advanced is None
                        } else if key == Key::Enter && old(self).section == Section::Advanced {
                            &&& (final(self).advanced matches Some(a) && a.is_new(host))
                            &&& final(self).quick is None
                        } else {
                            &&& final(self).quick is None
                            &&& final(self).advanced is None
                        }
                    }
                },
            },
            action == BuilderAction::Create ==> final(self).buildable(),
    {
        if self.cancel_confirmation.is_some() {
            if key == Key::Esc {
                self.cancel_confirmation = None;
                return BuilderAction::Done;
            }
            let mut c = self.cancel_confirmation.unwrap();
            let answer = c.handle_key_events(key);
            self.cancel_confirmation = Some(c);
            return match answer {
                Some(choice) => BuilderAction::Cancel(choice),
                None => BuilderAction::Done,
            };
        }
        let popup = match &self.advanced {
            Some(a) => a.storage.new_disk_popup() || a.port_forwarding.new_mapping_popup(),
            None => false,
        };
        if !popup && key == Key::Esc {
            if self.advanced.is_some() || self.quick.is_some() {
                self.cancel_confirmation = Some(CancelConfirmation::new());
                return BuilderAction::Done;
            } else {
                return BuilderAction::Cancel(true);
            }
        }
        if self.advanced.is_some() {
            let mut a = self.advanced.take().unwrap();
            let ghost a0 = a;
            let r = a.handle_key_events(key, cloudinit_exists, boot_file_exists);
            assert(advanced_after(a0, a, key, cloudinit_exists, boot_file_exists, r));
            self.advanced = Some(a);
            return match r {
                AdvancedAction::Done => BuilderAction::Done,
                AdvancedAction::ToField => BuilderAction::ToField,
                AdvancedAction::Create => BuilderAction::Create,
            };
        }
        if self.quick.is_some() {
            let mut q = self.quick.take().unwrap();
            let ghost q0 = q;
            let r = q.handle_key_events(key);
            assert(quick_after(q0, q, key, r));
            self.quick = Some(q);
            return match r {
                QuickAction::Done => BuilderAction::Done,
                QuickAction::ToField => BuilderAction::ToField,
                QuickAction::Create => BuilderAction::Create,
            };
        }
        if key == Key::Tab || key == Key::BackTab || key.down() || key.up() {
            self.section = match self.section {
                Section::Quick => Section::Advanced,
                Section::Advanced => Section::Quick,
            };
        } else if key == Key::Enter {
            match self.section {
                Section::Quick => {
                    self.quick = Some(Quick::new());
                },
                Section::Advanced => {
                    self.advanced = Some(Advanced::new(host));
                },
            }
        }
        BuilderAction::Done
    }
}

/// The error a numeric field shows, given its text: empty, not a number no
/// larger than `max`, or zero.
pub open spec fn number_field_error(
    text: Seq<char>,
    max: nat,
    zero_msg: Seq<char>,
    nan_msg: Seq<char>,
) -> Option<Seq<char>> {
    if text.len() == 0 {
        Some("Field required"@)
    } else {
        match parse_unsigned(text, max) {
            Some(v) => if v == 0 {
                Some(zero_msg)
            } else {
                None
            },
            None => Some(nan_msg),
        }
    }
}

/// The error of a numeric field whose largest accepted value is `max`.
pub fn number_field_check(text: &str, max: u64, zero_msg: &str, nan_msg: &str) -> (r: Option<
    String,
>)
    ensures
        match r {
            Some(e) => number_field_error(text@, max as nat, zero_msg@, nan_msg@) == Some(e@),
            None => number_field_error(text@, max as nat, zero_msg@, nan_msg@) is None,
        },
{
    if text.unicode_len() == 0 {
        return Some(String::from_str("Field required"));
    }
    match parse_unsigned_str(text, max) {
        Some(v) => {
            if v == 0 {
                Some(String::from_str(zero_msg))
            } else {
                None
            }
        },
        None => Some(String::from_str(nan_msg)),
    }
}

/// The error of the vCPU field.
pub open spec fn vcpu_field_error(text: Seq<char>) -> Option<Seq<char>> {
    number_field_error(text, 65535, "vcpu value can not be 0"@, "vcpu value should be a number"@)
}

/// The error of the memory field (MiB).
pub open spec fn memory_mib_field_error(text: Seq<char>) -> Option<Seq<char>> {
    number_field_error(
        text,
        4294967295,
        "Memory value can not be 0"@,
        "Memory value should be a number"@,
    )
}

} // verus!
