//! The hardware section of the VM creation form: vCPUs, memory, architecture
//! and firmware.
use vstd::prelude::*;
use vstd::string::*;

use crate::arch::Arch;
use crate::distro::LinuxDistro;
use crate::edit::{edit_field, typed, untouched};
use crate::key::{Key, is_down, is_left, is_right, is_up};
use crate::network::port_forwarding::opt_view;
use crate::text::{parse_unsigned, parse_unsigned_str};
use crate::vmbuilder::{memory_mib_field_error, number_field_check, vcpu_field_error};

verus! {

/// The form section that has the focus.
#[derive(Debug, Clone, Copy, PartialEq, Eq, Structural)]
pub enum Section {
    Cpu,
    Arch,
    Memory,
    Uefi,
}

/// The hardware section: typed vCPU count and memory (MiB), architecture, UEFI.
#[derive(Debug, Clone)]
pub struct Hardware {
    pub section: Section,
    pub arch: Arch,
    pub vcpu: String,
    pub vcpu_cursor: usize,
    pub vcpu_error: Option<String>,
    pub memory: String,
    pub memory_cursor: usize,
    pub memory_error: Option<String>,
    pub enable_uefi: bool,
}

/// The focus, architecture and UEFI switch of the hardware section.
pub struct HardwareState {
    pub section: Section,
    pub arch: Arch,
    pub enable_uefi: bool,
}

/// What `key` does to the focus, architecture and UEFI switch, when the typed
/// values are `valid`, for a VM of distribution `os`; and whether the key then
/// goes to the focused text field. Moving off the vCPU and memory fields takes
/// the plain arrow keys and valid values; otherwise the arrow key is typed into
/// the field. Arch Linux images are x86-64 only, so the architecture is fixed
/// for them. UEFI can only be switched off on x86-64.
pub open spec fn hardware_step(
    s: HardwareState,
    key: Key,
    os: Option<LinuxDistro>,
    valid: bool,
) -> (HardwareState, bool) {
    match s.section {
        Section::Cpu => if key == Key::Up && valid {
            (HardwareState { section: Section::Uefi, ..s }, false)
        } else if key == Key::Down && valid {
            (HardwareState { section: Section::Memory, ..s }, false)
        } else {
            (s, true)
        },
        Section::Memory => if key == Key::Up && valid {
            (HardwareState { section: Section::Cpu, ..s }, false)
        } else if key == Key::Down && valid {
            (HardwareState { section: Section::Arch, ..s }, false)
        } else {
            (s, true)
        },
        Section::Arch => if os == Some(LinuxDistro::ArchLinux) {
            if is_up(key) {
                (HardwareState { section: Section::Memory, ..s }, false)
            } else if is_down(key) {
                (HardwareState { section: Section::Uefi, ..s }, false)
            } else {
                (s, false)
            }
        } else if is_right(key) {
            (
                match s.arch {
                    Arch::X86_64 => HardwareState { arch: Arch::Riscv64, enable_uefi: true, ..s },
                    Arch::Aarch64 => HardwareState { arch: Arch::X86_64, ..s },
                    Arch::Riscv64 => HardwareState { arch: Arch::Aarch64, enable_uefi: true, ..s },
                },
                false,
            )
        } else if is_left(key) {
            (
                match s.arch {
                    Arch::X86_64 => HardwareState { arch: Arch::Aarch64, enable_uefi: true, ..s },
                    Arch::Aarch64 => HardwareState { arch: Arch::Riscv64, enable_uefi: true, ..s },
                    Arch::Riscv64 => HardwareState { arch: Arch::X86_64, ..s },
                },
                false,
            )
        } else if is_up(key) {
            (HardwareState { section: Section::Memory, ..s }, false)
        } else if is_down(key) {
            (HardwareState { section: Section::Uefi, ..s }, false)
        } else {
            (s, false)
        },
        Section::Uefi => if (is_right(key) || is_left(key)) && s.arch == Arch::X86_64 {
            (HardwareState { enable_uefi: !s.enable_uefi, ..s }, false)
        } else if is_up(key) {
            (HardwareState { section: Section::Arch, ..s }, false)
        } else if is_down(key) {
            (HardwareState { section: Section::Cpu, ..s }, false)
        } else {
            (s, false)
        },
    }
}

/// `n` is the hardware section `o` after `key`, for a VM of distribution
/// `os`, and `to_field` says whether the key went to the focused text field,
/// which it edits.
pub open spec fn hardware_after(o: Hardware, n: Hardware, key: Key, os: Option<LinuxDistro>, to_field: bool) -> bool {
    &&& ({
                let valid = vcpu_field_error(o.vcpu@) is None && memory_mib_field_error(
                    o.memory@,
                ) is None;
                let (st, f) = hardware_step(o.state(), key, os, valid);
                n.state() == st && to_field == f
            })
    &&& if to_field && o.section == Section::Cpu {
        typed(o.vcpu, o.vcpu_cursor, n.vcpu, n.vcpu_cursor, key)
    } else {
        untouched(o.vcpu, o.vcpu_cursor, n.vcpu, n.vcpu_cursor)
    }
    &&& if to_field && o.section == Section::Memory {
        typed(o.memory, o.memory_cursor, n.memory, n.memory_cursor, key)
    } else {
        untouched(o.memory, o.memory_cursor, n.memory, n.memory_cursor)
    }
    &&& ((o.section == Section::Cpu || o.section
                == Section::Memory) && (key == Key::Up || key == Key::Down)) ==> (opt_view(
                n.vcpu_error,
            ) == vcpu_field_error(o.vcpu@) && opt_view(n.memory_error)
                == memory_mib_field_error(o.memory@))
    &&& (!((o.section == Section::Cpu || o.section
                == Section::Memory) && (key == Key::Up || key == Key::Down)) ==> (n.vcpu_error == o.vcpu_error && n.memory_error == o.memory_error))
}

/// `n` is the hardware section `o` after its check, and `valid` is the
/// check's outcome.
pub open spec fn hardware_validated(o: Hardware, n: Hardware, valid: bool) -> bool {
    &&& opt_view(n.vcpu_error) == vcpu_field_error(o.vcpu@)
    &&& opt_view(n.memory_error) == memory_mib_field_error(o.memory@)
    &&& valid == (vcpu_field_error(o.vcpu@) is None && memory_mib_field_error(
                o.memory@,
            ) is None)
    &&& n.state() == o.state()
    &&& n.vcpu == o.vcpu
    &&& n.vcpu_cursor == o.vcpu_cursor
    &&& n.memory == o.memory
    &&& n.memory_cursor == o.memory_cursor
}

impl Hardware {
    /// The focus, architecture and UEFI switch.
    pub open spec fn state(&self) -> HardwareState {
        HardwareState { section: self.section, arch: self.arch, enable_uefi: self.enable_uefi }
    }

    /// One vCPU, 512 MiB, UEFI on, the host's architecture where it is a known
    /// one (x86-64 otherwise).
    pub fn new(host: Option<Arch>) -> (r: Self)
        ensures
            r.section == Section::Cpu,
            r.arch == match host {
                Some(a) => a,
                None => Arch::X86_64,
            },
            r.vcpu@ == "1"@,
            r.vcpu_cursor == 1,
            r.memory@ == "512"@,
            r.memory_cursor == 3,
            r.vcpu_error is None,
            r.memory_error is None,
            r.enable_uefi,
    {
        Hardware {
            section: Section::Cpu,
            arch: match host {
                Some(a) => a,
                None => Arch::X86_64,
            },
            vcpu: String::from_str("1"),
            vcpu_cursor: 1,
            vcpu_error: None,
            memory: String::from_str("512"),
            memory_cursor: 3,
            memory_error: None,
            enable_uefi: true,
        }
    }

    /// Sets the architecture.
    pub fn set_arch(&mut self, arch: Arch)
        ensures
            *final(self) == (Hardware { arch, ..*old(self) }),
    {
        self.arch = arch;
    }

    /// Switches UEFI on or off.
    pub fn set_uefi(&mut self, enable: bool)
        ensures
            *final(self) == (Hardware { enable_uefi: enable, ..*old(self) }),
    {
        self.enable_uefi = enable;
    }

    /// The typed vCPU count.
    pub fn vcpu(&self) -> (r: u16)
        requires
            parse_unsigned(self.vcpu@, 65535) is Some,
        ensures
            r == parse_unsigned(self.vcpu@, 65535)->0,
    {
        parse_unsigned_str(self.vcpu.as_str(), 65535).unwrap() as u16
    }

    /// The typed memory, in MiB.
    pub fn memory(&self) -> (r: u32)
        requires
            parse_unsigned(self.memory@, 4294967295) is Some,
        ensures
            r == parse_unsigned(self.memory@, 4294967295)->0,
    {
        parse_unsigned_str(self.memory.as_str(), 4294967295).unwrap() as u32
    }

    /// The architecture.
    pub fn arch(&self) -> (r: Arch)
        ensures
            r == self.arch,
    {
        self.arch
    }

    /// Whether UEFI is on.
    pub fn enable_uefi(&self) -> (r: bool)
        ensures
            r == self.enable_uefi,
    {
        self.enable_uefi
    }

    /// Checks the vCPU count and memory and records their errors; true when
    /// there is none.
    pub fn validate(&mut self) -> (valid: bool)
        ensures
            hardware_validated(*old(self), *final(self), valid),
    {
        self.vcpu_error = number_field_check(
            self.vcpu.as_str(),
            65535,
            "vcpu value can not be 0",
            "vcpu value should be a number",
        );
        self.memory_error = number_field_check(
            self.memory.as_str(),
            4294967295,
            "Memory value can not be 0",
            "Memory value should be a number",
        );
        self.vcpu_error.is_none() && self.memory_error.is_none()
    }

    /// Reacts to a key, for a VM of distribution `os` (see `hardware_step`).
    /// The arrow keys on the vCPU and memory fields check the form first, which
    /// records its errors; the keys that stay there edit the focused field.
    /// Returns true when the key went to that field.
    pub fn handle_key_events(&mut self, key: Key, os: Option<LinuxDistro>) -> (to_field: bool)
        ensures
            hardware_after(*old(self), *final(self), key, os, to_field),
    {
        match self.section {
            Section::Cpu => {
                if key == Key::Up || key == Key::Down {
                    let valid = self.validate();
                    if valid {
                        self.section = if key == Key::Up {
                            Section::Uefi
                        } else {
                            Section::Memory
                        };
                        return false;
                    }
                }
                edit_field(&mut self.vcpu, &mut self.vcpu_cursor, key);
                true
            },
            Section::Memory => {
                if key == Key::Up || key == Key::Down {
                    let valid = self.validate();
                    if valid {
                        self.section = if key == Key::Up {
                            Section::Cpu
                        } else {
                            Section::Arch
                        };
                        return false;
                    }
                }
                edit_field(&mut self.memory, &mut self.memory_cursor, key);
                true
            },
            Section::Arch => {
                let locked = match os {
                    Some(LinuxDistro::ArchLinux) => true,
                    _ => false,
                };
                if locked {
                    if key.up() {
                        self.section = Section::Memory;
                    } else if key.down() {
                        self.section = Section::Uefi;
                    }
                } else if key.right() {
                    match self.arch {
                        Arch::X86_64 => {
                            self.arch = Arch::Riscv64;
                            self.enable_uefi = true;
                        },
                        Arch::Aarch64 => {
                            self.arch = Arch::X86_64;
                        },
                        Arch::Riscv64 => {
                            self.arch = Arch::Aarch64;
                            self.enable_uefi = true;
                        },
                    }
                } else if key.left() {
                    match self.arch {
                        Arch::X86_64 => {
                            self.arch = Arch::Aarch64;
                            self.enable_uefi = true;
                        },
                        Arch::Aarch64 => {
                            self.arch = Arch::Riscv64;
                            self.enable_uefi = true;
                        },
                        Arch::Riscv64 => {
                            self.arch = Arch::X86_64;
                        },
                    }
                } else if key.up() {
                    self.section = Section::Memory;
                } else if key.down() {
                    self.section = Section::Uefi;
                }
                false
            },
            Section::Uefi => {
                if (key.right() || key.left()) && self.arch == Arch::X86_64 {
                    self.enable_uefi = !self.enable_uefi;
                } else if key.up() {
                    self.section = Section::Arch;
                } else if key.down() {
                    self.section = Section::Cpu;
                }
                false
            },
        }
    }
}

} // verus!
