//! The overview section of the advanced form: the name, how the VM boots,
//! its distribution and its cloud-init file.
use vstd::prelude::*;
use vstd::string::*;

use crate::distro::LinuxDistro;
use crate::distro::debian::DebianRelease;
use crate::distro::ubuntu::UbuntuRelease;
use crate::edit::{edit_field, typed, untouched};
use crate::key::{Key, is_down, is_left, is_right, is_up};
use crate::network::port_forwarding::opt_view;
use crate::vm::BootOption;
use crate::vmbuilder::quick::{
    cycle_debian,
    cycle_ubuntu,
    next_debian,
    next_ubuntu,
    quick_next_os,
};

verus! {

/// The field that has the focus.
#[derive(Debug, Clone, Copy, PartialEq, Eq, Structural)]
pub enum Section {
    Name,
    BootOption,
    LocalFile,
    OS,
    Release,
    Cloudinit,
}

/// The overview section: the typed texts, their errors and the choices.
#[derive(Debug, Clone)]
pub struct Overview {
    pub section: Section,
    pub name: String,
    pub name_cursor: usize,
    pub name_error: Option<String>,
    pub boot_option: BootOption,
    pub cloudinit: String,
    pub cloudinit_cursor: usize,
    pub cloudinit_error: Option<String>,
    pub boot_file: String,
    pub boot_file_cursor: usize,
    pub boot_file_error: Option<String>,
    pub os: LinuxDistro,
    pub ubuntu_release: UbuntuRelease,
    pub debian_release: DebianRelease,
}

/// The focus after `key` in section `s`, with boot option `b`.
pub open spec fn overview_next_section(s: Section, b: BootOption, key: Key) -> Section {
    match s {
        Section::Name => if key == Key::Up {
            Section::Cloudinit
        } else if key == Key::Down {
            Section::BootOption
        } else {
            s
        },
        Section::BootOption => if is_up(key) {
            Section::Name
        } else if is_down(key) {
            match b {
                BootOption::CloudImage => Section::OS,
                BootOption::LocalFile => Section::LocalFile,
            }
        } else {
            s
        },
        Section::LocalFile => if key == Key::Up {
            Section::BootOption
        } else if key == Key::Down {
            Section::Cloudinit
        } else {
            s
        },
        Section::OS => if is_up(key) {
            Section::BootOption
        } else if is_down(key) {
            Section::Release
        } else {
            s
        },
        Section::Release => if is_up(key) {
            Section::OS
        } else if is_down(key) {
            Section::Cloudinit
        } else {
            s
        },
        Section::Cloudinit => if key == Key::Up {
            match b {
                BootOption::CloudImage => Section::Release,
                BootOption::LocalFile => Section::LocalFile,
            }
        } else if key == Key::Down {
            Section::Name
        } else {
            s
        },
    }
}

/// The key goes to the text field of the focused section (the name, the
/// boot file or the cloud-init file).
pub open spec fn overview_key_to_field(s: Section, key: Key) -> bool {
    (s == Section::Name || s == Section::LocalFile || s == Section::Cloudinit) && key != Key::Up
        && key != Key::Down
}

/// A side key on the boot option flips it.
pub open spec fn overview_flips_boot(s: Section, key: Key) -> bool {
    s == Section::BootOption && !is_up(key) && !is_down(key) && (is_left(key) || is_right(key))
}

/// The distribution the VM gets: the chosen one with its chosen release when
/// it boots a cloud image, none when it boots a file.
pub open spec fn overview_os(
    b: BootOption,
    os: LinuxDistro,
    debian: DebianRelease,
    ubuntu: UbuntuRelease,
) -> Option<LinuxDistro> {
    match b {
        BootOption::CloudImage => Some(
            match os {
                LinuxDistro::Debian(_) => LinuxDistro::Debian(debian),
                LinuxDistro::Ubuntu(_) => LinuxDistro::Ubuntu(ubuntu),
                LinuxDistro::ArchLinux => LinuxDistro::ArchLinux,
            },
        ),
        BootOption::LocalFile => None,
    }
}

/// A text as an optional path: none when it is empty.
pub open spec fn optional_path(s: Seq<char>) -> Option<Seq<char>> {
    if s.len() == 0 {
        None
    } else {
        Some(s)
    }
}

/// The errors the overview shows after a check, and whether it passed,
/// given whether the two named files exist.
pub open spec fn overview_check(
    name: Seq<char>,
    boot: BootOption,
    cloudinit: Seq<char>,
    cloudinit_exists: bool,
    boot_file: Seq<char>,
    boot_file_exists: bool,
) -> (Option<Seq<char>>, Option<Seq<char>>, Option<Seq<char>>, bool) {
    let name_error = if name.len() == 0 {
        Some("Field required"@)
    } else {
        None
    };
    let cloudinit_error = if cloudinit.len() != 0 && !cloudinit_exists {
        Some("Cloudinit file does not exists"@)
    } else {
        None
    };
    let boot_error = if boot == BootOption::LocalFile {
        if boot_file.len() == 0 {
            Some("Field required"@)
        } else if !boot_file_exists {
            Some("Boot file does not exists"@)
        } else {
            None
        }
    } else {
        None
    };
    let valid = name_error is None && cloudinit_error is None && boot_error is None;
    (name_error, cloudinit_error, boot_error, valid)
}

fn optional_text(s: &String) -> (r: Option<String>)
    ensures
        opt_view(r) == optional_path(s@),
{
    if s.as_str().unicode_len() == 0 {
        None
    } else {
        Some(s.clone())
    }
}

/// `n` is the overview `o` after `key`, and `to_field` says whether the key
/// went to the focused text field, which it edits.
pub open spec fn overview_after(o: Overview, n: Overview, key: Key, to_field: bool) -> bool {
    &&& n.section == overview_next_section(
                o.section,
                o.boot_option,
                key,
            )
    &&& n.boot_option == if overview_flips_boot(o.section, key) {
                match o.boot_option {
                    BootOption::CloudImage => BootOption::LocalFile,
                    BootOption::LocalFile => BootOption::CloudImage,
                }
            } else {
                o.boot_option
            }
    &&& n.os == if o.section == Section::OS && !is_up(key) && !is_down(
                key,
            ) {
                quick_next_os(o.os, key)
            } else {
                o.os
            }
    &&& n.debian_release == if o.section == Section::Release && !is_up(key)
                && !is_down(key) && o.os is Debian {
                next_debian(o.debian_release, key)
            } else {
                o.debian_release
            }
    &&& n.ubuntu_release == if o.section == Section::Release && !is_up(key)
                && !is_down(key) && o.os is Ubuntu {
                next_ubuntu(o.ubuntu_release, key)
            } else {
                o.ubuntu_release
            }
    &&& to_field == overview_key_to_field(o.section, key)
    &&& if to_field && o.section == Section::Name {
        typed(o.name, o.name_cursor, n.name, n.name_cursor, key)
    } else {
        untouched(o.name, o.name_cursor, n.name, n.name_cursor)
    }
    &&& if to_field && o.section == Section::Cloudinit {
        typed(o.cloudinit, o.cloudinit_cursor, n.cloudinit, n.cloudinit_cursor, key)
    } else {
        untouched(o.cloudinit, o.cloudinit_cursor, n.cloudinit, n.cloudinit_cursor)
    }
    &&& if to_field && o.section == Section::LocalFile {
        typed(o.boot_file, o.boot_file_cursor, n.boot_file, n.boot_file_cursor, key)
    } else {
        untouched(o.boot_file, o.boot_file_cursor, n.boot_file, n.boot_file_cursor)
    }
    &&& n.name_error == o.name_error
    &&& n.cloudinit_error == o.cloudinit_error
    &&& n.boot_file_error == o.boot_file_error
}

/// `n` is the overview `o` after its check, given whether its two files
/// exist, and `valid` is the check's outcome.
pub open spec fn overview_validated(o: Overview, n: Overview, cloudinit_exists: bool, boot_file_exists: bool, valid: bool) -> bool {
    &&& ({
                let c = overview_check(
                    o.name@,
                    o.boot_option,
                    o.cloudinit@,
                    cloudinit_exists,
                    o.boot_file@,
                    boot_file_exists,
                );
                &&& opt_view(n.name_error) == c.0
                &&& opt_view(n.cloudinit_error) == c.1
                &&& opt_view(n.boot_file_error) == c.2
                &&& valid == c.3
            })
    &&& n.section == o.section
    &&& n.name == o.name
    &&& n.name_cursor == o.name_cursor
    &&& n.boot_option == o.boot_option
    &&& n.cloudinit == o.cloudinit
    &&& n.cloudinit_cursor == o.cloudinit_cursor
    &&& n.boot_file == o.boot_file
    &&& n.boot_file_cursor == o.boot_file_cursor
    &&& n.os == o.os
    &&& n.ubuntu_release == o.ubuntu_release
    &&& n.debian_release == o.debian_release
}

impl Overview {
    /// An empty overview that boots a Debian cloud image.
    pub fn new() -> (r: Self)
        ensures
            r.section == Section::Name,
            r.name@ == Seq::<char>::empty(),
            r.boot_option == BootOption::CloudImage,
            r.cloudinit@ == Seq::<char>::empty(),
            r.boot_file@ == Seq::<char>::empty(),
            r.os == LinuxDistro::Debian(DebianRelease::Trixie),
            r.ubuntu_release == UbuntuRelease::Resolute,
            r.debian_release == DebianRelease::Trixie,
            r.name_error is None && r.cloudinit_error is None && r.boot_file_error is None,
            r.name_cursor == 0 && r.cloudinit_cursor == 0 && r.boot_file_cursor == 0,
    {
        Overview {
            section: Section::Name,
            name: String::new(),
            name_cursor: 0,
            name_error: None,
            boot_option: BootOption::CloudImage,
            cloudinit: String::new(),
            cloudinit_cursor: 0,
            cloudinit_error: None,
            boot_file: String::new(),
            boot_file_cursor: 0,
            boot_file_error: None,
            os: LinuxDistro::Debian(DebianRelease::Trixie),
            ubuntu_release: UbuntuRelease::Resolute,
            debian_release: DebianRelease::Trixie,
        }
    }

    /// How the VM boots.
    pub fn boot_option(&self) -> (r: BootOption)
        ensures
            r == self.boot_option,
    {
        self.boot_option
    }

    /// The typed name.
    pub fn name(&self) -> (r: String)
        ensures
            r@ == self.name@,
    {
        self.name.clone()
    }

    /// The cloud-init file, if one was typed.
    pub fn cloudinit(&self) -> (r: Option<String>)
        ensures
            opt_view(r) == optional_path(self.cloudinit@),
    {
        optional_text(&self.cloudinit)
    }

    /// The boot file, if one was typed.
    pub fn boot_file(&self) -> (r: Option<String>)
        ensures
            opt_view(r) == optional_path(self.boot_file@),
    {
        optional_text(&self.boot_file)
    }

    /// The distribution the VM gets (none when it boots a file).
    pub fn os(&self) -> (r: Option<LinuxDistro>)
        ensures
            r == overview_os(self.boot_option, self.os, self.debian_release, self.ubuntu_release),
    {
        match self.boot_option {
            BootOption::CloudImage => match self.os {
                LinuxDistro::Debian(_) => Some(LinuxDistro::Debian(self.debian_release)),
                LinuxDistro::Ubuntu(_) => Some(LinuxDistro::Ubuntu(self.ubuntu_release)),
                LinuxDistro::ArchLinux => Some(LinuxDistro::ArchLinux),
            },
            BootOption::LocalFile => None,
        }
    }

    /// Checks the name and the two files and records their errors; true when
    /// there is none. Whether the files exist is asked of the caller.
    pub fn validate(&mut self, cloudinit_exists: bool, boot_file_exists: bool) -> (valid: bool)
        ensures
            overview_validated(*old(self), *final(self), cloudinit_exists, boot_file_exists, valid),
    {
        let mut valid = true;
        self.name_error = None;
        self.cloudinit_error = None;
        self.boot_file_error = None;
        if self.name.as_str().unicode_len() == 0 {
            self.name_error = Some(String::from_str("Field required"));
            valid = false;
        }
        if self.cloudinit.as_str().unicode_len() != 0 && !cloudinit_exists {
            self.cloudinit_error = Some(String::from_str("Cloudinit file does not exists"));
            valid = false;
        }
        if self.boot_option == BootOption::LocalFile {
            if self.boot_file.as_str().unicode_len() == 0 {
                self.boot_file_error = Some(String::from_str("Field required"));
                return false;
            }
            if !boot_file_exists {
                self.boot_file_error = Some(String::from_str("Boot file does not exists"));
                valid = false;
            }
        }
        valid
    }

    /// Reacts to a key: moves the focus, flips the boot option, or changes
    /// the distribution or its release; other keys edit the focused text
    /// field. Returns true when the key went to a text field.
    pub fn handle_key_events(&mut self, key: Key) -> (to_field: bool)
        ensures
            overview_after(*old(self), *final(self), key, to_field),
    {
        match self.section {
            Section::Name => {
                if key == Key::Up {
                    self.section = Section::Cloudinit;
                    false
                } else if key == Key::Down {
                    self.section = Section::BootOption;
                    false
                } else {
                    edit_field(&mut self.name, &mut self.name_cursor, key);
                    true
                }
            },
            Section::BootOption => {
                if key.up() {
                    self.section = Section::Name;
                } else if key.down() {
                    self.section = match self.boot_option {
                        BootOption::CloudImage => Section::OS,
                        BootOption::LocalFile => Section::LocalFile,
                    };
                } else if key.left() || key.right() {
                    self.boot_option = match self.boot_option {
                        BootOption::CloudImage => BootOption::LocalFile,
                        BootOption::LocalFile => BootOption::CloudImage,
                    };
                }
                false
            },
            Section::LocalFile => {
                if key == Key::Up {
                    self.section = Section::BootOption;
                    false
                } else if key == Key::Down {
                    self.section = Section::Cloudinit;
                    false
                } else {
                    edit_field(&mut self.boot_file, &mut self.boot_file_cursor, key);
                    true
                }
            },
            Section::OS => {
                if key.up() {
                    self.section = Section::BootOption;
                } else if key.down() {
                    self.section = Section::Release;
                } else if key.left() {
                    self.os = match self.os {
                        LinuxDistro::Debian(_) => LinuxDistro::Ubuntu(UbuntuRelease::Resolute),
                        LinuxDistro::Ubuntu(_) => LinuxDistro::ArchLinux,
                        LinuxDistro::ArchLinux => LinuxDistro::Debian(DebianRelease::Trixie),
                    };
                } else if key.right() {
                    self.os = match self.os {
                        LinuxDistro::Debian(_) => LinuxDistro::ArchLinux,
                        LinuxDistro::Ubuntu(_) => LinuxDistro::Debian(DebianRelease::Trixie),
                        LinuxDistro::ArchLinux => LinuxDistro::Ubuntu(UbuntuRelease::Resolute),
                    };
                }
                false
            },
            Section::Release => {
                if key.up() {
                    self.section = Section::OS;
                } else if key.down() {
                    self.section = Section::Cloudinit;
                } else {
                    match self.os {
                        LinuxDistro::Debian(_) => {
                            self.debian_release = cycle_debian(self.debian_release, key);
                        },
                        LinuxDistro::Ubuntu(_) => {
                            self.ubuntu_release = cycle_ubuntu(self.ubuntu_release, key);
                        },
                        LinuxDistro::ArchLinux => {},
                    }
                }
                false
            },
            Section::Cloudinit => {
                if key == Key::Up {
                    self.section = match self.boot_option {
                        BootOption::CloudImage => Section::Release,
                        BootOption::LocalFile => Section::LocalFile,
                    };
                    false
                } else if key == Key::Down {
                    self.section = Section::Name;
                    false
                } else {
                    edit_field(&mut self.cloudinit, &mut self.cloudinit_cursor, key);
                    true
                }
            },
        }
    }
}

} // verus!
