//! Guest graphics: the emulated card, the host display, and the form that
//! chooses them.
use vstd::prelude::*;
use vstd::string::*;

use crate::edit::{edit_field, end_of, typed, untouched};
use crate::key::{Key, is_down, is_left, is_right, is_up};
use crate::network::port_forwarding::opt_view;
use crate::text::{extend_strings, dec, parse_unsigned, parse_unsigned_str, to_decimal, views, lemma_parse_dec};

verus! {

/// Graphics of a VM: the emulated card and where its output is shown.
#[derive(Debug, Clone, Copy, PartialEq, Eq, Structural)]
pub struct Graphics {
    pub device: GraphicsDevice,
    pub display: Display,
}

/// Where the guest's screen is shown on the host.
#[derive(Debug, Clone, Copy, PartialEq, Eq, Structural)]
pub enum Display {
    NoDisplay,
    Gtk,
    Sdl,
    EglHeadless,
}

/// The emulated graphics card.
#[derive(Debug, Clone, Copy, PartialEq, Eq, Structural)]
pub enum GraphicsDevice {
    Std { vgamem: u16 },
    Qxl { vgamem: u16 },
    Virtio(VirtioConfig),
    NoDevice,
}

/// Options of a virtio graphics card.
#[derive(Debug, Clone, Copy, PartialEq, Eq, Structural)]
pub struct VirtioConfig {
    pub enable_3d: bool,
    pub venus: bool,
}

impl Default for Display {
    fn default() -> (r: Self)
        ensures
            r == Display::NoDisplay,
    {
        Display::NoDisplay
    }
}

impl Default for GraphicsDevice {
    fn default() -> (r: Self)
        ensures
            r == (GraphicsDevice::Std { vgamem: 16 }),
    {
        GraphicsDevice::Std { vgamem: 16 }
    }
}

impl Default for VirtioConfig {
    fn default() -> (r: Self)
        ensures
            r == (VirtioConfig { enable_3d: false, venus: false }),
    {
        VirtioConfig { enable_3d: false, venus: false }
    }
}

impl Default for Graphics {
    fn default() -> (r: Self)
        ensures
            r == (Graphics { device: GraphicsDevice::Std { vgamem: 16 }, display: Display::NoDisplay }),
    {
        Graphics { device: GraphicsDevice::Std { vgamem: 16 }, display: Display::NoDisplay }
    }
}

/// The display name of a display.
pub open spec fn display_name(d: Display) -> Seq<char> {
    match d {
        Display::NoDisplay => "None"@,
        Display::Gtk => "Gtk"@,
        Display::Sdl => "Sdl"@,
        Display::EglHeadless => "EglHeadless"@,
    }
}

/// The value of QEMU's `-display` option for `d`.
pub open spec fn display_option(d: Display) -> Seq<char> {
    match d {
        Display::NoDisplay => "none"@,
        Display::Gtk => "gtk"@,
        Display::Sdl => "sdl"@,
        Display::EglHeadless => "egl-headless"@,
    }
}

/// OpenGL is on: a virtio card with 3D acceleration, shown in a GTK or SDL window.
pub open spec fn gl_on(g: Graphics) -> bool {
    match g.device {
        GraphicsDevice::Virtio(c) => c.enable_3d && (g.display == Display::Gtk || g.display
            == Display::Sdl),
        _ => false,
    }
}

/// The `-display` arguments of `g`; a 3D virtio card turns OpenGL on.
pub open spec fn display_args(g: Graphics) -> Seq<Seq<char>> {
    let gl = match g.device {
        GraphicsDevice::Virtio(c) => c.enable_3d,
        _ => false,
    };
    seq![
        "-display"@,
        if gl {
            display_option(g.display) + ",gl=on"@
        } else {
            display_option(g.display)
        },
    ]
}

/// The arguments that set up the graphics card `d`.
pub open spec fn device_args(d: GraphicsDevice) -> Seq<Seq<char>> {
    match d {
        GraphicsDevice::Std { vgamem } => seq![
            "-vga"@,
            "none"@,
            "-device"@,
            "VGA,vgamem_mb="@ + dec(vgamem as nat),
        ],
        GraphicsDevice::Qxl { vgamem } => seq![
            "-vga"@,
            "none"@,
            "-device"@,
            "qxl-vga,vgamem_mb="@ + dec(vgamem as nat),
        ],
        GraphicsDevice::Virtio(c) => if c.enable_3d {
            if c.venus {
                seq!["-vga"@, "none"@, "-device"@, "virtio-gpu-gl,hostmem=8G,blob=true,venus=true"@]
            } else {
                seq!["-vga"@, "none"@, "-device"@, "virtio-gpu-gl,hostmem=8G,blob=true"@]
            }
        } else {
            seq!["-vga"@, "none"@, "-device"@, "virtio-gpu"@]
        },
        GraphicsDevice::NoDevice => seq!["-vga"@, "none"@],
    }
}

/// The QEMU arguments for the graphics `g`: the display, then the card.
pub open spec fn graphics_args(g: Graphics) -> Seq<Seq<char>> {
    display_args(g) + device_args(g.device)
}

impl Display {
    /// The display name (`None`, `Gtk`, `Sdl`, `EglHeadless`).
    pub fn name(&self) -> (r: &'static str)
        ensures
            r@ == display_name(*self),
    {
        match self {
            Display::NoDisplay => "None",
            Display::Gtk => "Gtk",
            Display::Sdl => "Sdl",
            Display::EglHeadless => "EglHeadless",
        }
    }

    fn option(&self) -> (r: &'static str)
        ensures
            r@ == display_option(*self),
    {
        match self {
            Display::NoDisplay => "none",
            Display::Gtk => "gtk",
            Display::Sdl => "sdl",
            Display::EglHeadless => "egl-headless",
        }
    }
}

fn strings4(a: &str, b: &str, c: &str, d: String) -> (r: Vec<String>)
    ensures
        views(r@) == seq![a@, b@, c@, d@],
{
    let mut v: Vec<String> = Vec::new();
    v.push(String::from_str(a));
    v.push(String::from_str(b));
    v.push(String::from_str(c));
    v.push(d);
    assert(views(v@) =~= seq![a@, b@, c@, d@]);
    v
}

impl Graphics {
    /// Whether OpenGL is on: a 3D virtio card shown in a GTK or SDL window.
    pub fn is_gl_on(&self) -> (r: bool)
        ensures
            r == gl_on(*self),
    {
        match self.device {
            GraphicsDevice::Virtio(config) => config.enable_3d && (self.display == Display::Gtk
                || self.display == Display::Sdl),
            _ => false,
        }
    }

    /// The QEMU arguments for these graphics.
    pub fn to_qemu_arg(&self) -> (r: Vec<String>)
        ensures
            views(r@) == graphics_args(*self),
    {
        let mut shown = String::from_str(self.display.option());
        match self.device {
            GraphicsDevice::Virtio(config) => {
                if config.enable_3d {
                    shown.append(",gl=on");
                }
            },
            _ => {},
        }
        let mut args: Vec<String> = Vec::new();
        args.push(String::from_str("-display"));
        args.push(shown);
        let device = match self.device {
            GraphicsDevice::Std { vgamem } => {
                let mut d = String::from_str("VGA,vgamem_mb=");
                d.append(to_decimal(vgamem as u64).as_str());
                strings4("-vga", "none", "-device", d)
            },
            GraphicsDevice::Qxl { vgamem } => {
                let mut d = String::from_str("qxl-vga,vgamem_mb=");
                d.append(to_decimal(vgamem as u64).as_str());
                strings4("-vga", "none", "-device", d)
            },
            GraphicsDevice::Virtio(config) => {
                if config.enable_3d {
                    if config.venus {
                        strings4(
                            "-vga",
                            "none",
                            "-device",
                            String::from_str("virtio-gpu-gl,hostmem=8G,blob=true,venus=true"),
                        )
                    } else {
                        strings4(
                            "-vga",
                            "none",
                            "-device",
                            String::from_str("virtio-gpu-gl,hostmem=8G,blob=true"),
                        )
                    }
                } else {
                    strings4("-vga", "none", "-device", String::from_str("virtio-gpu"))
                }
            },
            GraphicsDevice::NoDevice => {
                let mut v: Vec<String> = Vec::new();
                v.push(String::from_str("-vga"));
                v.push(String::from_str("none"));
                assert(views(v@) =~= seq!["-vga"@, "none"@]);
                v
            },
        };
        let ghost head = views(args@);
        extend_strings(&mut args, &device);
        assert(head =~= display_args(*self));
        args
    }
}

/// The kind of card the form has selected.
#[derive(Debug, Clone, Copy, PartialEq, Eq, Structural)]
pub enum DeviceKind {
    Std,
    Qxl,
    Virtio,
    NoDevice,
}

/// The form section that has the focus.
#[derive(Debug, Clone, Copy, PartialEq, Eq, Structural)]
pub enum GraphicsSection {
    Device,
    Display,
    Memory,
    Enable3d,
    Venus,
}

/// The form that chooses a VM's graphics. `memory` is the typed video memory
/// in MiB, used by the standard and QXL cards.
#[derive(Debug, Clone)]
pub struct GraphicsBuilder {
    pub section: GraphicsSection,
    pub device: DeviceKind,
    pub display: Display,
    pub memory: String,
    pub memory_cursor: usize,
    pub memory_error: Option<String>,
    pub enable_3d: bool,
    pub venus: bool,
    pub display_error: Option<String>,
}

/// The error the memory field shows, given its text.
pub open spec fn memory_field_error(text: Seq<char>) -> Option<Seq<char>> {
    if text.len() == 0 {
        Some("Field required"@)
    } else {
        match parse_unsigned(text, 4294967295) {
            Some(v) => if v == 0 {
                Some("Memory value can not be 0"@)
            } else {
                None
            },
            None => Some("Memory value should be a number"@),
        }
    }
}

/// The section the focus moves to on `key`.
pub open spec fn graphics_next_section(s: GraphicsSection, d: DeviceKind, key: Key) -> GraphicsSection {
    if is_down(key) {
        match s {
            GraphicsSection::Device => if d == DeviceKind::NoDevice {
                s
            } else {
                GraphicsSection::Display
            },
            GraphicsSection::Display => if d == DeviceKind::Virtio {
                GraphicsSection::Enable3d
            } else {
                GraphicsSection::Memory
            },
            GraphicsSection::Memory => GraphicsSection::Device,
            GraphicsSection::Enable3d => GraphicsSection::Venus,
            GraphicsSection::Venus => GraphicsSection::Device,
        }
    } else if is_up(key) {
        match s {
            GraphicsSection::Device => match d {
                DeviceKind::Std | DeviceKind::Qxl => GraphicsSection::Memory,
                DeviceKind::Virtio => GraphicsSection::Venus,
                DeviceKind::NoDevice => s,
            },
            GraphicsSection::Display => GraphicsSection::Device,
            GraphicsSection::Memory => GraphicsSection::Display,
            GraphicsSection::Enable3d => GraphicsSection::Display,
            GraphicsSection::Venus => GraphicsSection::Enable3d,
        }
    } else {
        s
    }
}

/// The card selection after `key`.
pub open spec fn graphics_next_device(s: GraphicsSection, d: DeviceKind, key: Key) -> DeviceKind {
    if !is_down(key) && !is_up(key) && s == GraphicsSection::Device {
        if is_right(key) {
            match d {
                DeviceKind::Std => DeviceKind::Qxl,
                DeviceKind::Qxl => DeviceKind::Virtio,
                DeviceKind::Virtio => DeviceKind::NoDevice,
                DeviceKind::NoDevice => DeviceKind::Std,
            }
        } else if is_left(key) {
            match d {
                DeviceKind::Std => DeviceKind::NoDevice,
                DeviceKind::Qxl => DeviceKind::Std,
                DeviceKind::Virtio => DeviceKind::Qxl,
                DeviceKind::NoDevice => DeviceKind::Virtio,
            }
        } else {
            d
        }
    } else {
        d
    }
}

/// The display selection after `key`.
pub open spec fn graphics_next_display(
    s: GraphicsSection,
    d: DeviceKind,
    disp: Display,
    key: Key,
) -> Display {
    if !is_down(key) && !is_up(key) && s == GraphicsSection::Display && d != DeviceKind::NoDevice {
        if is_right(key) {
            match disp {
                Display::NoDisplay => Display::Gtk,
                Display::Gtk => Display::Sdl,
                Display::Sdl => Display::EglHeadless,
                Display::EglHeadless => Display::NoDisplay,
            }
        } else if is_left(key) {
            match disp {
                Display::NoDisplay => Display::EglHeadless,
                Display::Gtk => Display::NoDisplay,
                Display::Sdl => Display::Gtk,
                Display::EglHeadless => Display::Sdl,
            }
        } else {
            disp
        }
    } else {
        disp
    }
}

/// `key` puts the memory field back to its default of 16 MiB: it selects the
/// standard or the QXL card from another one.
pub open spec fn graphics_resets_memory(s: GraphicsSection, d: DeviceKind, key: Key) -> bool {
    !is_down(key) && !is_up(key) && s == GraphicsSection::Device && ((is_right(key) && (d
        == DeviceKind::Std || d == DeviceKind::NoDevice)) || (!is_right(key) && is_left(key) && (d
        == DeviceKind::Qxl || d == DeviceKind::Virtio)))
}

/// `key` clears the display error: it moves from the virtio card to QXL, or
/// moves the display away from none.
pub open spec fn graphics_clears_display_error(
    s: GraphicsSection,
    d: DeviceKind,
    disp: Display,
    key: Key,
) -> bool {
    &&& !is_down(key)
    &&& !is_up(key)
    &&& ((s == GraphicsSection::Device && !is_right(key) && is_left(key) && d == DeviceKind::Virtio)
        || (s == GraphicsSection::Display && d != DeviceKind::NoDevice && (is_right(key) || is_left(
        key,
    )) && disp == Display::NoDisplay))
}

/// `key` flips the checkbox of the focused section `t`.
pub open spec fn graphics_toggles(s: GraphicsSection, t: GraphicsSection, key: Key) -> bool {
    !is_down(key) && !is_up(key) && s == t && (is_left(key) || is_right(key))
}

impl GraphicsBuilder {
    /// The focused section fits the selected card: the display is never
    /// focused without a card, memory only with a standard or QXL card, the 3D
    /// and venus checkboxes only with a virtio card.
    pub open spec fn wf(&self) -> bool {
        &&& self.section == GraphicsSection::Display ==> self.device != DeviceKind::NoDevice
        &&& self.section == GraphicsSection::Memory ==> (self.device == DeviceKind::Std
            || self.device == DeviceKind::Qxl)
        &&& (self.section == GraphicsSection::Enable3d || self.section == GraphicsSection::Venus)
            ==> self.device == DeviceKind::Virtio
    }

    /// Whether `wf` holds.
    pub fn well_formed(&self) -> (r: bool)
        ensures
            r == self.wf(),
    {
        !(self.section == GraphicsSection::Display && self.device == DeviceKind::NoDevice) && !(
        self.section == GraphicsSection::Memory && !(self.device == DeviceKind::Std
            || self.device == DeviceKind::Qxl)) && !((self.section == GraphicsSection::Enable3d
            || self.section == GraphicsSection::Venus) && self.device != DeviceKind::Virtio)
    }

    /// The form for editing `graphics`, or a new form with a standard card of
    /// 16 MiB and no display.
    pub fn new(graphics: Option<&Graphics>) -> (r: Self)
        ensures
            r.wf(),
            r.section == GraphicsSection::Device,
            r.memory_error is None,
            r.memory_cursor == r.memory@.len(),
            r.display_error is None,
            match graphics {
                Some(g) => {
                    &&& r.display == g.display
                    &&& match g.device {
                        GraphicsDevice::Std { vgamem } => r.device == DeviceKind::Std && r.memory@
                            == dec(vgamem as nat) && !r.enable_3d && !r.venus,
                        GraphicsDevice::Qxl { vgamem } => r.device == DeviceKind::Qxl && r.memory@
                            == dec(vgamem as nat) && !r.enable_3d && !r.venus,
                        GraphicsDevice::Virtio(c) => r.device == DeviceKind::Virtio && r.memory@
                            == "16"@ && r.enable_3d == c.enable_3d && r.venus == c.venus,
                        GraphicsDevice::NoDevice => r.device == DeviceKind::NoDevice && r.memory@ == "16"@
                            && !r.enable_3d && !r.venus,
                    }
                },
                None => r.device == DeviceKind::Std && r.display == Display::NoDisplay && r.memory@
                    == "16"@ && !r.enable_3d && !r.venus,
            },
    {
        match graphics {
            Some(g) => {
                let mut enable_3d = false;
                let mut venus = false;
                let mut memory = String::from_str("16");
                let device = match g.device {
                    GraphicsDevice::Std { vgamem } => {
                        memory = to_decimal(vgamem as u64);
                        DeviceKind::Std
                    },
                    GraphicsDevice::Qxl { vgamem } => {
                        memory = to_decimal(vgamem as u64);
                        DeviceKind::Qxl
                    },
                    GraphicsDevice::Virtio(config) => {
                        enable_3d = config.enable_3d;
                        venus = config.venus;
                        DeviceKind::Virtio
                    },
                    GraphicsDevice::NoDevice => DeviceKind::NoDevice,
                };
                let memory_cursor = end_of(&memory);
                GraphicsBuilder {
                    section: GraphicsSection::Device,
                    device,
                    display: g.display,
                    memory_cursor,
                    memory,
                    memory_error: None,
                    enable_3d,
                    venus,
                    display_error: None,
                }
            },
            None => {
                proof {
                    reveal_strlit("16");
                }
                GraphicsBuilder {
                    section: GraphicsSection::Device,
                    device: DeviceKind::Std,
                    display: Display::NoDisplay,
                    memory: String::from_str("16"),
                    memory_cursor: 2,
                    memory_error: None,
                    enable_3d: false,
                    venus: false,
                    display_error: None,
                }
            },
        }
    }

    /// The graphics the form describes; without a card there is no display.
    pub fn build(&self) -> (r: Graphics)
        requires
            (self.device == DeviceKind::Std || self.device == DeviceKind::Qxl) ==> parse_unsigned(
                self.memory@,
                65535,
            ) is Some,
        ensures
            r == match self.device {
                DeviceKind::NoDevice => Graphics { device: GraphicsDevice::NoDevice, display: Display::NoDisplay },
                DeviceKind::Std => Graphics {
                    device: GraphicsDevice::Std {
                        vgamem: parse_unsigned(self.memory@, 65535)->0 as u16,
                    },
                    display: self.display,
                },
                DeviceKind::Qxl => Graphics {
                    device: GraphicsDevice::Qxl {
                        vgamem: parse_unsigned(self.memory@, 65535)->0 as u16,
                    },
                    display: self.display,
                },
                DeviceKind::Virtio => Graphics {
                    device: GraphicsDevice::Virtio(
                        VirtioConfig { enable_3d: self.enable_3d, venus: self.venus },
                    ),
                    display: self.display,
                },
            },
    {
        match self.device {
            DeviceKind::NoDevice => Graphics { device: GraphicsDevice::NoDevice, display: Display::NoDisplay },
            DeviceKind::Std => {
                let memory = parse_unsigned_str(self.memory.as_str(), 65535).unwrap() as u16;
                Graphics { device: GraphicsDevice::Std { vgamem: memory }, display: self.display }
            },
            DeviceKind::Qxl => {
                let memory = parse_unsigned_str(self.memory.as_str(), 65535).unwrap() as u16;
                Graphics { device: GraphicsDevice::Qxl { vgamem: memory }, display: self.display }
            },
            DeviceKind::Virtio => Graphics {
                device: GraphicsDevice::Virtio(
                    VirtioConfig { enable_3d: self.enable_3d, venus: self.venus },
                ),
                display: self.display,
            },
        }
    }

    /// Checks the form and records the errors; true when there is none. The
    /// memory error is cleared first; the display error only ever gets set here.
    pub fn validate(&mut self) -> (valid: bool)
        ensures
            (old(self).device == DeviceKind::Std || old(self).device == DeviceKind::Qxl) ==> (
            opt_view(final(self).memory_error) == memory_field_error(old(self).memory@) && valid
                == (memory_field_error(old(self).memory@) is None)
                && final(self).display_error == old(self).display_error),
            (old(self).device == DeviceKind::Virtio && old(self).enable_3d && old(self).display
                == Display::NoDisplay) ==> (final(self).memory_error is None && opt_view(
                final(self).display_error,
            ) == Some("Display value can not be None"@) && !valid),
            (old(self).device == DeviceKind::NoDevice || (old(self).device == DeviceKind::Virtio && !(
            old(self).enable_3d && old(self).display == Display::NoDisplay))) ==> (
            final(self).memory_error is None && final(self).display_error == old(self).display_error && valid),
            final(self).section == old(self).section,
            final(self).device == old(self).device,
            final(self).display == old(self).display,
            final(self).memory == old(self).memory,
            final(self).memory_cursor == old(self).memory_cursor,
            final(self).enable_3d == old(self).enable_3d,
            final(self).venus == old(self).venus,
    {
        let mut valid = true;
        self.memory_error = None;
        match self.device {
            DeviceKind::Std | DeviceKind::Qxl => {
                if self.memory.as_str().unicode_len() == 0 {
                    self.memory_error = Some(String::from_str("Field required"));
                    valid = false;
                } else {
                    match parse_unsigned_str(self.memory.as_str(), 4294967295) {
                        Some(v) => {
                            if v == 0 {
                                self.memory_error = Some(
                                    String::from_str("Memory value can not be 0"),
                                );
                                valid = false;
                            }
                        },
                        None => {
                            self.memory_error = Some(
                                String::from_str("Memory value should be a number"),
                            );
                            valid = false;
                        },
                    }
                }
            },
            DeviceKind::Virtio => {
                if self.enable_3d && self.display == Display::NoDisplay {
                    self.display_error = Some(String::from_str("Display value can not be None"));
                    valid = false;
                }
            },
            DeviceKind::NoDevice => {},
        }
        valid
    }

    /// Reacts to a key: moves the focus, switches the card or the display, or
    /// flips a checkbox; on the memory field, other keys edit it. Returns true
    /// when the key went to the memory field.
    pub fn handle_key_events(&mut self, key: Key) -> (to_field: bool)
        requires
            old(self).wf(),
        ensures
            final(self).wf(),
            final(self).section == graphics_next_section(old(self).section, old(self).device, key),
            final(self).device == graphics_next_device(old(self).section, old(self).device, key),
            final(self).display == graphics_next_display(
                old(self).section,
                old(self).device,
                old(self).display,
                key,
            ),
            graphics_resets_memory(old(self).section, old(self).device, key) ==> (final(self).memory@
                == "16"@ && final(self).memory_cursor == 2 && final(self).memory_error is None),
            !graphics_resets_memory(old(self).section, old(self).device, key) ==> final(self).memory_error == old(self).memory_error,
            (!graphics_resets_memory(old(self).section, old(self).device, key) && !(!is_down(key)
                && !is_up(key) && old(self).section == GraphicsSection::Memory)) ==> untouched(
                old(self).memory,
                old(self).memory_cursor,
                final(self).memory,
                final(self).memory_cursor,
            ),
            (!is_down(key) && !is_up(key) && old(self).section == GraphicsSection::Memory) ==> typed(
                old(self).memory,
                old(self).memory_cursor,
                final(self).memory,
                final(self).memory_cursor,
                key,
            ),
            graphics_clears_display_error(old(self).section, old(self).device, old(self).display, key)
                ==> final(self).display_error is None,
            !graphics_clears_display_error(
                old(self).section,
                old(self).device,
                old(self).display,
                key,
            ) ==> final(self).display_error == old(self).display_error,
            final(self).enable_3d == (old(self).enable_3d != graphics_toggles(
                old(self).section,
                GraphicsSection::Enable3d,
                key,
            )),
            final(self).venus == (old(self).venus != graphics_toggles(
                old(self).section,
                GraphicsSection::Venus,
                key,
            )),
            to_field == (!is_down(key) && !is_up(key) && old(self).section == GraphicsSection::Memory),
    {
        if key.down() {
            self.section = match self.section {
                GraphicsSection::Device => if self.device == DeviceKind::NoDevice {
                    GraphicsSection::Device
                } else {
                    GraphicsSection::Display
                },
                GraphicsSection::Display => if self.device == DeviceKind::Virtio {
                    GraphicsSection::Enable3d
                } else {
                    GraphicsSection::Memory
                },
                GraphicsSection::Memory => GraphicsSection::Device,
                GraphicsSection::Enable3d => GraphicsSection::Venus,
                GraphicsSection::Venus => GraphicsSection::Device,
            };
            return false;
        }
        if key.up() {
            self.section = match self.section {
                GraphicsSection::Device => match self.device {
                    DeviceKind::Std | DeviceKind::Qxl => GraphicsSection::Memory,
                    DeviceKind::Virtio => GraphicsSection::Venus,
                    DeviceKind::NoDevice => GraphicsSection::Device,
                },
                GraphicsSection::Display => GraphicsSection::Device,
                GraphicsSection::Memory => GraphicsSection::Display,
                GraphicsSection::Enable3d => GraphicsSection::Display,
                GraphicsSection::Venus => GraphicsSection::Enable3d,
            };
            return false;
        }
        match self.section {
            GraphicsSection::Device => {
                if key.right() {
                    match self.device {
                        DeviceKind::Std => {
                            self.device = DeviceKind::Qxl;
                            self.memory = String::from_str("16");
                            self.memory_cursor = 2;
                            self.memory_error = None;
                        },
                        DeviceKind::Qxl => {
                            self.device = DeviceKind::Virtio;
                        },
                        DeviceKind::Virtio => {
                            self.device = DeviceKind::NoDevice;
                        },
                        DeviceKind::NoDevice => {
                            self.device = DeviceKind::Std;
                            self.memory = String::from_str("16");
                            self.memory_cursor = 2;
                            self.memory_error = None;
                        },
                    }
                } else if key.left() {
                    match self.device {
                        DeviceKind::Std => {
                            self.device = DeviceKind::NoDevice;
                        },
                        DeviceKind::Qxl => {
                            self.device = DeviceKind::Std;
                            self.memory = String::from_str("16");
                            self.memory_cursor = 2;
                            self.memory_error = None;
                        },
                        DeviceKind::Virtio => {
                            self.device = DeviceKind::Qxl;
                            self.memory = String::from_str("16");
                            self.memory_cursor = 2;
                            self.memory_error = None;
                            self.display_error = None;
                        },
                        DeviceKind::NoDevice => {
                            self.device = DeviceKind::Virtio;
                        },
                    }
                }
                false
            },
            GraphicsSection::Display => {
                if self.device != DeviceKind::NoDevice {
                    if key.right() {
                        match self.display {
                            Display::NoDisplay => {
                                self.display = Display::Gtk;
                                self.display_error = None;
                            },
                            Display::Gtk => {
                                self.display = Display::Sdl;
                            },
                            Display::Sdl => {
                                self.display = Display::EglHeadless;
                            },
                            Display::EglHeadless => {
                                self.display = Display::NoDisplay;
                            },
                        }
                    } else if key.left() {
                        match self.display {
                            Display::NoDisplay => {
                                self.display = Display::EglHeadless;
                                self.display_error = None;
                            },
                            Display::Gtk => {
                                self.display = Display::NoDisplay;
                            },
                            Display::Sdl => {
                                self.display = Display::Gtk;
                            },
                            Display::EglHeadless => {
                                self.display = Display::Sdl;
                            },
                        }
                    }
                }
                false
            },
            GraphicsSection::Memory => {
                edit_field(&mut self.memory, &mut self.memory_cursor, key);
                true
            },
            GraphicsSection::Enable3d => {
                if key.left() || key.right() {
                    self.enable_3d = !self.enable_3d;
                }
                false
            },
            GraphicsSection::Venus => {
                if key.left() || key.right() {
                    self.venus = !self.venus;
                }
                false
            },
        }
    }
}

/// Editing graphics and building them back gives the same graphics, unless a
/// display was set without a card (the form then builds no display).
pub proof fn lemma_graphics_form_roundtrip(g: Graphics, b: GraphicsBuilder)
    requires
        g.device != GraphicsDevice::NoDevice || g.display == Display::NoDisplay,
        b.display == g.display,
        match g.device {
            GraphicsDevice::Std { vgamem } => b.device == DeviceKind::Std && b.memory@ == dec(
                vgamem as nat,
            ),
            GraphicsDevice::Qxl { vgamem } => b.device == DeviceKind::Qxl && b.memory@ == dec(
                vgamem as nat,
            ),
            GraphicsDevice::Virtio(c) => b.device == DeviceKind::Virtio && b.enable_3d
                == c.enable_3d && b.venus == c.venus,
            GraphicsDevice::NoDevice => b.device == DeviceKind::NoDevice,
        },
    ensures
        (b.device == DeviceKind::Std || b.device == DeviceKind::Qxl) ==> parse_unsigned(
            b.memory@,
            65535,
        ) is Some,
        g == match b.device {
            DeviceKind::NoDevice => Graphics { device: GraphicsDevice::NoDevice, display: Display::NoDisplay },
            DeviceKind::Std => Graphics {
                device: GraphicsDevice::Std { vgamem: parse_unsigned(b.memory@, 65535)->0 as u16 },
                display: b.display,
            },
            DeviceKind::Qxl => Graphics {
                device: GraphicsDevice::Qxl { vgamem: parse_unsigned(b.memory@, 65535)->0 as u16 },
                display: b.display,
            },
            DeviceKind::Virtio => Graphics {
                device: GraphicsDevice::Virtio(
                    VirtioConfig { enable_3d: b.enable_3d, venus: b.venus },
                ),
                display: b.display,
            },
        },
{
    match g.device {
        GraphicsDevice::Std { vgamem } => {
            lemma_parse_dec(vgamem as nat, 65535);
        },
        GraphicsDevice::Qxl { vgamem } => {
            lemma_parse_dec(vgamem as nat, 65535);
        },
        _ => {},
    }
}

} // verus!
