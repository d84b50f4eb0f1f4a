//! The decisions of the main screen: which part of the screen has the keys,
//! what a key does to the VM list and to the highlighted VM, and which
//! architectures the host can run.
use vstd::prelude::*;

use crate::arch::Arch;
use crate::key::Key;
use crate::notification::{Notification, NotificationLevel};
use vstd::string::*;

verus! {

/// The part of the screen that has the keys.
#[derive(Debug, Clone, Copy, PartialEq, Eq, Structural)]
pub enum FocusedSection {
    Main,
    NewVM,
    EditVM,
    DeleteConfirmation,
}

impl Default for FocusedSection {
    fn default() -> (r: Self)
        ensures
            r == FocusedSection::Main,
    {
        FocusedSection::Main
    }
}

/// The field of the first VM creation form that has the focus.
#[derive(Debug, Clone, Copy, PartialEq, Eq, Structural)]
pub enum NewVMFocusedSection {
    Name,
    CPU,
    Memory,
    Disk,
}

impl Default for NewVMFocusedSection {
    fn default() -> (r: Self)
        ensures
            r == NewVMFocusedSection::Name,
    {
        NewVMFocusedSection::Name
    }
}

/// What QEMU reports of a VM, as far as kudu tells the states apart.
#[derive(Debug, Clone, Copy, PartialEq, Eq, Structural)]
pub enum VmState {
    Running,
    Paused,
    Shutdown,
    Suspended,
    /// Any other state QEMU reports.
    Other,
}

/// What is asked of QEMU for a VM.
#[derive(Debug, Clone, Copy, PartialEq, Eq, Structural)]
pub enum VmCommand {
    Pause,
    Resume,
    Start,
    PowerDown,
    Quit,
    Nothing,
}

/// What a key asks of the highlighted VM in state `state`: space and Enter
/// pause a running VM, resume a paused one and start a stopped one; `s`
/// powers it down; `x` stops QEMU unless the VM is already stopped.
pub open spec fn vm_command_for(key: Key, state: VmState) -> VmCommand {
    if key == Key::Char(' ') || key == Key::Enter {
        match state {
            VmState::Running => VmCommand::Pause,
            VmState::Paused => VmCommand::Resume,
            VmState::Shutdown => VmCommand::Start,
            _ => VmCommand::Nothing,
        }
    } else if key == Key::Char('s') {
        VmCommand::PowerDown
    } else if key == Key::Char('x') && state != VmState::Shutdown {
        VmCommand::Quit
    } else {
        VmCommand::Nothing
    }
}

/// What a key asks of the highlighted VM (see `vm_command_for`).
pub fn vm_command(key: Key, state: VmState) -> (r: VmCommand)
    ensures
        r == vm_command_for(key, state),
{
    if key == Key::Char(' ') || key == Key::Enter {
        match state {
            VmState::Running => VmCommand::Pause,
            VmState::Paused => VmCommand::Resume,
            VmState::Shutdown => VmCommand::Start,
            _ => VmCommand::Nothing,
        }
    } else if key == Key::Char('s') {
        VmCommand::PowerDown
    } else if key == Key::Char('x') && state != VmState::Shutdown {
        VmCommand::Quit
    } else {
        VmCommand::Nothing
    }
}

/// What a key does on the main screen.
#[derive(Debug, Clone, Copy, PartialEq, Eq, Structural)]
pub enum MainAction {
    /// Save the VMs' events and leave.
    Quit,
    /// Open the VM creation screen.
    NewVM,
    /// Highlight the VM at this position.
    Select(usize),
    /// Ask whether to delete the highlighted VM.
    AskDelete,
    /// Open the edit form of the VM at this position.
    Edit(usize),
    /// Tell that a VM must be stopped before it is edited.
    EditRefused,
    /// Write the drive arguments of the VM at this position to a file.
    DumpDrives(usize),
    /// Hand the key to the VM at this position.
    ToVm(usize),
    /// Nothing.
    Nothing,
}

/// The highlight after `j` on a list of `len` VMs: one row down, staying on
/// the last one; the first row when nothing is highlighted.
pub open spec fn vm_below(sel: Option<usize>, len: nat) -> usize {
    match sel {
        Some(i) => if i + 1 < len {
            (i + 1) as usize
        } else {
            (len - 1) as usize
        },
        None => 0,
    }
}

/// The highlight after `k`: one row up, staying on the first one; the first
/// row when nothing is highlighted.
pub open spec fn vm_above(sel: Option<usize>) -> usize {
    match sel {
        Some(i) => if i == 0 {
            0
        } else {
            (i - 1) as usize
        },
        None => 0,
    }
}

/// What a key does on the main screen, with the highlighted row `sel` of the
/// VM list whose states are `states`; `control` tells whether Control is held
/// (a character typed with Control may also come as `Key::Ctrl`).
pub open spec fn main_action_for(
    key: Key,
    control: bool,
    sel: Option<usize>,
    states: Seq<VmState>,
) -> MainAction {
    let on_vm = sel matches Some(i) && i < states.len();
    if key == Key::Char('q') {
        MainAction::Quit
    } else if key == Key::Ctrl('c') || key == Key::Ctrl('C') || ((key == Key::Char('c')
        || key == Key::Char('C')) && control) {
        MainAction::Quit
    } else if key == Key::Char('n') {
        MainAction::NewVM
    } else if key == Key::Char('j') {
        MainAction::Select(vm_below(sel, states.len()))
    } else if key == Key::Char('k') {
        MainAction::Select(vm_above(sel))
    } else if key == Key::Char('d') {
        if on_vm && states[sel->0 as int] == VmState::Shutdown {
            MainAction::AskDelete
        } else {
            MainAction::Nothing
        }
    } else if key == Key::Char('e') {
        if !on_vm {
            MainAction::Nothing
        } else if states[sel->0 as int] == VmState::Shutdown {
            MainAction::Edit(sel->0)
        } else {
            MainAction::EditRefused
        }
    } else if key == Key::Char('v') {
        if on_vm {
            MainAction::DumpDrives(sel->0)
        } else {
            MainAction::Nothing
        }
    } else if on_vm {
        MainAction::ToVm(sel->0)
    } else {
        MainAction::Nothing
    }
}

/// What a key does on the main screen (see `main_action_for`).
pub fn main_action(key: Key, control: bool, sel: Option<usize>, states: &Vec<VmState>) -> (r:
    MainAction)
    requires
        key == Key::Char('j') && sel is Some ==> states@.len() > 0,
    ensures
        r == main_action_for(key, control, sel, states@),
{
    let on_vm = match sel {
        Some(i) => i < states.len(),
        None => false,
    };
    if key == Key::Char('q') {
        MainAction::Quit
    } else if key == Key::Ctrl('c') || key == Key::Ctrl('C') || ((key == Key::Char('c')
        || key == Key::Char('C')) && control) {
        MainAction::Quit
    } else if key == Key::Char('n') {
        MainAction::NewVM
    } else if key == Key::Char('j') {
        MainAction::Select(
            match sel {
                Some(i) => {
                    let last = states.len() - 1;
                    if i < last {
                        i + 1
                    } else {
                        last
                    }
                },
                None => 0,
            },
        )
    } else if key == Key::Char('k') {
        MainAction::Select(
            match sel {
                Some(i) => i.saturating_sub(1),
                None => 0,
            },
        )
    } else if key == Key::Char('d') {
        if on_vm && states[sel.unwrap()] == VmState::Shutdown {
            MainAction::AskDelete
        } else {
            MainAction::Nothing
        }
    } else if key == Key::Char('e') {
        if !on_vm {
            MainAction::Nothing
        } else if states[sel.unwrap()] == VmState::Shutdown {
            MainAction::Edit(sel.unwrap())
        } else {
            MainAction::EditRefused
        }
    } else if key == Key::Char('v') {
        if on_vm {
            MainAction::DumpDrives(sel.unwrap())
        } else {
            MainAction::Nothing
        }
    } else if on_vm {
        MainAction::ToVm(sel.unwrap())
    } else {
        MainAction::Nothing
    }
}

/// The part of the screen that has the keys after `action` on the main
/// screen: the creation form, the delete question or the edit form when the
/// action opens one, the main screen otherwise.
pub open spec fn focus_for(action: MainAction) -> FocusedSection {
    match action {
        MainAction::NewVM => FocusedSection::NewVM,
        MainAction::AskDelete => FocusedSection::DeleteConfirmation,
        MainAction::Edit(_) => FocusedSection::EditVM,
        _ => FocusedSection::Main,
    }
}

/// The part of the screen that has the keys after `action` (see
/// `focus_for`).
pub fn focus_after(action: MainAction) -> (r: FocusedSection)
    ensures
        r == focus_for(action),
{
    match action {
        MainAction::NewVM => FocusedSection::NewVM,
        MainAction::AskDelete => FocusedSection::DeleteConfirmation,
        MainAction::Edit(_) => FocusedSection::EditVM,
        _ => FocusedSection::Main,
    }
}

/// `e` on a highlighted VM opens its edit form when the VM is shut down;
/// otherwise the main screen keeps the keys and the edit is refused (the
/// caller then sends `edit_refused_notification`).
pub proof fn lemma_edit_key_on_main(control: bool, i: usize, states: Seq<VmState>)
    requires
        i < states.len(),
    ensures
        states[i as int] == VmState::Shutdown ==> {
            &&& main_action_for(Key::Char('e'), control, Some(i), states) == MainAction::Edit(i)
            &&& focus_for(main_action_for(Key::Char('e'), control, Some(i), states))
                == FocusedSection::EditVM
        },
        states[i as int] != VmState::Shutdown ==> {
            &&& main_action_for(Key::Char('e'), control, Some(i), states) == MainAction::EditRefused
            &&& focus_for(main_action_for(Key::Char('e'), control, Some(i), states))
                == FocusedSection::Main
        },
{
}

/// The notification sent for `MainAction::EditRefused`: the highlighted VM
/// is not shut down.
pub fn edit_refused_notification() -> (r: Notification)
    ensures
        r.message@ == "VM should be shutdown before edit"@,
        r.level == NotificationLevel::Info,
        r.ttl == 10,
{
    Notification::new(String::from_str("VM should be shutdown before edit"), NotificationLevel::Info)
}

/// The architectures whose QEMU is installed, in the order x86-64, AArch64,
/// RISC-V 64.
pub open spec fn archs_found(x86_64: bool, aarch64: bool, riscv64: bool) -> Seq<Arch> {
    (if x86_64 {
        seq![Arch::X86_64]
    } else {
        Seq::empty()
    }) + (if aarch64 {
        seq![Arch::Aarch64]
    } else {
        Seq::empty()
    }) + (if riscv64 {
        seq![Arch::Riscv64]
    } else {
        Seq::empty()
    })
}

/// The architectures the host can run, given which QEMU system emulators
/// were found (also used for the architectures whose UEFI files exist).
pub fn available_archs(x86_64: bool, aarch64: bool, riscv64: bool) -> (r: Vec<Arch>)
    ensures
        r@ == archs_found(x86_64, aarch64, riscv64),
{
    let mut v: Vec<Arch> = Vec::new();
    if x86_64 {
        v.push(Arch::X86_64);
    }
    if aarch64 {
        v.push(Arch::Aarch64);
    }
    if riscv64 {
        v.push(Arch::Riscv64);
    }
    assert(v@ =~= archs_found(x86_64, aarch64, riscv64));
    v
}

} // verus!
