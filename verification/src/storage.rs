//! Drives attached to a VM, new disk images, and the form that describes one.
use vstd::prelude::*;
use vstd::string::*;

use crate::arch::Arch;
use crate::edit::{edit_field, typed, untouched};
use crate::key::{Key, is_down, is_left, is_right, is_up};
use crate::network::port_forwarding::opt_view;
use crate::text::{dec, join, join_strings, parse_unsigned, parse_unsigned_str, str_equal, to_decimal, views};

verus! {

/// The bus a drive is attached to.
#[derive(Debug, Clone, Copy, PartialEq, Eq, Structural)]
pub enum Interface {
    Virtio,
    Ide,
    Pflash,
}

/// What kind of medium a drive holds.
#[derive(Debug, Clone, Copy, PartialEq, Eq, Structural)]
pub enum Media {
    Disk,
    CdRom,
}

/// The format of a disk image.
#[derive(Debug, Clone, Copy, PartialEq, Eq, Structural)]
pub enum Format {
    Qcow2,
    Raw,
}

impl Default for Interface {
    fn default() -> (r: Self)
        ensures
            r == Interface::Virtio,
    {
        Interface::Virtio
    }
}

impl Default for Media {
    fn default() -> (r: Self)
        ensures
            r == Media::Disk,
    {
        Media::Disk
    }
}

impl Default for Format {
    fn default() -> (r: Self)
        ensures
            r == Format::Qcow2,
    {
        Format::Qcow2
    }
}

/// The name QEMU knows a bus by.
pub open spec fn interface_name(i: Interface) -> Seq<char> {
    match i {
        Interface::Virtio => "virtio"@,
        Interface::Ide => "ide"@,
        Interface::Pflash => "pflash"@,
    }
}

/// The name of a medium.
pub open spec fn media_name(m: Media) -> Seq<char> {
    match m {
        Media::Disk => "disk"@,
        Media::CdRom => "cd_rom"@,
    }
}

/// The name of an image format.
pub open spec fn format_name(f: Format) -> Seq<char> {
    match f {
        Format::Qcow2 => "qcow2"@,
        Format::Raw => "raw"@,
    }
}

impl Interface {
    /// The name QEMU knows the bus by.
    pub fn name(&self) -> (r: &'static str)
        ensures
            r@ == interface_name(*self),
    {
        match self {
            Interface::Virtio => "virtio",
            Interface::Ide => "ide",
            Interface::Pflash => "pflash",
        }
    }
}

impl Media {
    /// The name of the medium.
    pub fn name(&self) -> (r: &'static str)
        ensures
            r@ == media_name(*self),
    {
        match self {
            Media::Disk => "disk",
            Media::CdRom => "cd_rom",
        }
    }
}

impl Format {
    /// The name of the format.
    pub fn name(&self) -> (r: &'static str)
        ensures
            r@ == format_name(*self),
    {
        match self {
            Format::Qcow2 => "qcow2",
            Format::Raw => "raw",
        }
    }
}

/// A drive of a VM: an image file on a bus. `size` is in GiB where known.
#[derive(Debug, Clone)]
pub struct Drive {
    pub path: String,
    pub interface: Interface,
    pub media: Media,
    pub format: Format,
    pub read_only: bool,
    pub unit: Option<u16>,
    pub size: Option<u64>,
}

/// What a drive is, with its path as characters.
pub struct DriveView {
    pub path: Seq<char>,
    pub interface: Interface,
    pub media: Media,
    pub format: Format,
    pub read_only: bool,
    pub unit: Option<u16>,
    pub size: Option<u64>,
}

/// The model of a drive.
pub open spec fn drive_view(d: Drive) -> DriveView {
    DriveView {
        path: d.path@,
        interface: d.interface,
        media: d.media,
        format: d.format,
        read_only: d.read_only,
        unit: d.unit,
        size: d.size,
    }
}

/// The models of a list of drives.
pub open spec fn drive_views(ds: Seq<Drive>) -> Seq<DriveView> {
    ds.map_values(|d: Drive| drive_view(d))
}

/// The options of `d`'s `-drive` value, in order.
pub open spec fn drive_options(d: Drive) -> Seq<Seq<char>> {
    let base = seq!["file="@ + d.path@, "if="@ + interface_name(d.interface), "format="@ + format_name(d.format)];
    let ro = if d.read_only {
        base.push("readonly=on"@)
    } else {
        base
    };
    let cd = if d.media == Media::CdRom {
        ro.push("media=cdrom"@)
    } else {
        ro
    };
    match d.unit {
        Some(u) => cd.push("unit="@ + dec(u as nat)),
        None => cd,
    }
}

/// The `-drive` value of `d`: its options joined by commas.
pub open spec fn drive_arg(d: Drive) -> Seq<char> {
    join(drive_options(d), ","@)
}

/// A drive placed at a unit says so last: its `-drive` value ends with
/// `,unit=` and digits that read back as that very unit.
pub proof fn lemma_drive_arg_names_unit(d: Drive)
    requires
        d.unit is Some,
    ensures
        exists|t: Seq<char>|
            #[trigger] parse_unsigned(t, 65535) == Some(d.unit->0 as nat) && t.len() + 6
                <= drive_arg(d).len() && drive_arg(d).subrange(
                drive_arg(d).len() - t.len() - 6,
                drive_arg(d).len() as int,
            ) == ",unit="@ + t,
{
    let u = d.unit->0;
    let opts = drive_options(d);
    let t = dec(u as nat);
    let cd = opts.drop_last();
    assert(opts.len() >= 4);
    assert(opts.last() == "unit="@ + t);
    let j = join(cd, ","@);
    assert(drive_arg(d) == j + ","@ + ("unit="@ + t));
    reveal_strlit(",unit=");
    reveal_strlit(",");
    reveal_strlit("unit=");
    crate::text::lemma_parse_dec(u as nat, 65535);
    let a = drive_arg(d);
    assert(a.subrange(a.len() - t.len() - 6, a.len() as int) =~= ",unit="@ + t);
}

/// The `-drive` value of a drive starts with its file, and carries
/// `readonly=on` exactly when the drive is read-only and `media=cdrom`
/// exactly when it is a CD-ROM.
pub proof fn lemma_drive_options_flags(d: Drive)
    ensures
        drive_options(d)[0] == "file="@ + d.path@,
        drive_options(d).contains("readonly=on"@) <==> d.read_only,
        drive_options(d).contains("media=cdrom"@) <==> d.media == Media::CdRom,
{
    reveal_strlit("file=");
    reveal_strlit("if=");
    reveal_strlit("format=");
    reveal_strlit("readonly=on");
    reveal_strlit("media=cdrom");
    reveal_strlit("unit=");
    let o = drive_options(d);
    assert(o[0] == "file="@ + d.path@);
    assert(o[0][0] == 'f');
    assert(o[1][0] == 'i');
    assert(o[2][0] == 'f');
    if d.read_only {
        assert(o[3] == "readonly=on"@);
    }
    if d.media == Media::CdRom {
        let k: int = if d.read_only { 4 } else { 3 };
        assert(o[k] == "media=cdrom"@);
    }
    assert forall|i: int| 0 <= i < o.len() && o[i] == "readonly=on"@ implies d.read_only by {
        assert(o[i][0] == 'r');
        if !d.read_only {
            if d.media == Media::CdRom && i == 3 {
                assert(o[i][0] == 'm');
            }
            if i == o.len() - 1 && d.unit is Some {
                assert(o[i][0] == 'u');
            }
        }
    }
    assert forall|i: int| 0 <= i < o.len() && o[i] == "media=cdrom"@ implies d.media
        == Media::CdRom by {
        assert(o[i][0] == 'm');
        if d.media != Media::CdRom {
            if d.read_only && i == 3 {
                assert(o[i][0] == 'r');
            }
            if i == o.len() - 1 && d.unit is Some {
                assert(o[i][0] == 'u');
            }
        }
    }
}

impl Drive {
    /// A copy of this drive.
    pub fn duplicate(&self) -> (r: Drive)
        ensures
            r == *self,
    {
        Drive {
            path: self.path.clone(),
            interface: self.interface,
            media: self.media,
            format: self.format,
            read_only: self.read_only,
            unit: self.unit,
            size: self.size,
        }
    }

    /// The `-drive` value that attaches this drive.
    pub fn to_qemu_arg(&self) -> (r: String)
        ensures
            r@ == drive_arg(*self),
    {
        let mut args: Vec<String> = Vec::new();
        let mut f = String::from_str("file=");
        f.append(self.path.as_str());
        args.push(f);
        let mut i = String::from_str("if=");
        i.append(self.interface.name());
        args.push(i);
        let mut fm = String::from_str("format=");
        fm.append(self.format.name());
        args.push(fm);
        if self.read_only {
            args.push(String::from_str("readonly=on"));
        }
        if self.media == Media::CdRom {
            args.push(String::from_str("media=cdrom"));
        }
        match self.unit {
            Some(unit) => {
                let mut u = String::from_str("unit=");
                u.append(to_decimal(unit as u64).as_str());
                args.push(u);
            },
            None => {},
        }
        assert(views(args@) =~= drive_options(*self));
        join_strings(&args, ",")
    }
}

/// What `serde_json` makes of `text` read as a JSON document: its top-level
/// member `key` as an unsigned integer. `None` when `text` is no JSON;
/// `Some(None)` when the member is missing or holds no unsigned integer.
pub uninterp spec fn json_u64_member_of(text: Seq<char>, key: Seq<char>) -> Option<Option<u64>>;

/// What `serde_json` makes of `text` read as a JSON document: its top-level
/// member `key` as a string. `None` when `text` is no JSON; `Some(None)` when
/// the member is missing or holds no string.
pub uninterp spec fn json_str_member_of(text: Seq<char>, key: Seq<char>) -> Option<Option<Seq<char>>>;

/// The view of an optional optional string.
pub open spec fn opt_opt_view(o: Option<Option<String>>) -> Option<Option<Seq<char>>> {
    match o {
        None => None,
        Some(None) => Some(None),
        Some(Some(s)) => Some(Some(s@)),
    }
}

/// Parses `text` with `serde_json::from_str` into a `serde_json::Value` and
/// reads its member `key` with `Value::as_u64`. The contract names the result
/// and claims only that it is a function of `text` and `key`.
#[verifier::external_body]
fn json_u64_member(text: &str, key: &str) -> (r: Option<Option<u64>>)
    ensures
        r == json_u64_member_of(text@, key@),
{
    match serde_json::from_str::<serde_json::Value>(text) {
        Ok(v) => Some(v[key].as_u64()),
        Err(_) => None,
    }
}

/// Parses `text` with `serde_json::from_str` into a `serde_json::Value` and
/// reads its member `key` with `Value::as_str`. The contract names the result
/// and claims only that it is a function of `text` and `key`.
#[verifier::external_body]
fn json_str_member(text: &str, key: &str) -> (r: Option<Option<String>>)
    ensures
        opt_opt_view(r) == json_str_member_of(text@, key@),
{
    match serde_json::from_str::<serde_json::Value>(text) {
        Ok(v) => Some(v[key].as_str().map(|m| m.to_string())),
        Err(_) => None,
    }
}

/// Bytes in a gibibyte.
pub const GIB: u64 = 1073741824;

/// Why an image report could not be read.
#[derive(Debug, Clone, Copy, PartialEq, Eq, Structural)]
pub enum InfoError {
    /// The report is no JSON document.
    NotJson,
}

/// The size in GiB of an image of `bytes` bytes, rounded down.
pub open spec fn gib_of(bytes: u64) -> u64 {
    (bytes / GIB) as u64
}

/// The format an image report names.
pub open spec fn format_of_name(name: Seq<char>) -> Option<Format> {
    if name == "qcow2"@ {
        Some(Format::Qcow2)
    } else if name == "raw"@ {
        Some(Format::Raw)
    } else {
        None
    }
}

impl Drive {
    /// The size in GiB of an image of `bytes` bytes, rounded down.
    pub fn size_in_gib(bytes: u64) -> (r: u64)
        ensures
            r == gib_of(bytes),
    {
        bytes / GIB
    }

    /// The size in GiB of the image whose `qemu-img info --output json`
    /// report is `info`: its `virtual-size` member, in GiB rounded down.
    /// `Ok(None)` when the report has no such member.
    pub fn size_from_info(info: &str) -> (r: Result<Option<u64>, InfoError>)
        ensures
            match json_u64_member_of(info@, "virtual-size"@) {
                None => r == Err::<Option<u64>, InfoError>(InfoError::NotJson),
                Some(None) => r == Ok::<Option<u64>, InfoError>(None),
                Some(Some(b)) => r == Ok::<Option<u64>, InfoError>(Some(gib_of(b))),
            },
    {
        match json_u64_member(info, "virtual-size") {
            None => Err(InfoError::NotJson),
            Some(None) => Ok(None),
            Some(Some(b)) => Ok(Some(Drive::size_in_gib(b))),
        }
    }

    /// The format of the image whose `qemu-img info --output json` report is
    /// `info`, read from its `format` member. `Ok(None)` when the report names
    /// no format, or one other than qcow2 and raw.
    pub fn format_from_info(info: &str) -> (r: Result<Option<Format>, InfoError>)
        ensures
            match json_str_member_of(info@, "format"@) {
                None => r == Err::<Option<Format>, InfoError>(InfoError::NotJson),
                Some(None) => r == Ok::<Option<Format>, InfoError>(None),
                Some(Some(name)) => r == Ok::<Option<Format>, InfoError>(format_of_name(name)),
            },
    {
        match json_str_member(info, "format") {
            None => Err(InfoError::NotJson),
            Some(None) => Ok(None),
            Some(Some(name)) => {
                proof {
                    reveal_strlit("qcow2");
                    reveal_strlit("raw");
                }
                if str_equal(name.as_str(), "qcow2") {
                    Ok(Some(Format::Qcow2))
                } else if str_equal(name.as_str(), "raw") {
                    Ok(Some(Format::Raw))
                } else {
                    Ok(None)
                }
            },
        }
    }
}

/// A disk image to create: its size in GiB, format and bus.
#[derive(Debug, Clone, Copy, PartialEq, Eq, Structural)]
pub struct Disk {
    pub size: u64,
    pub format: Format,
    pub interface: Interface,
}

/// The `qemu-img` arguments that create the image of `d` at `path`.
pub open spec fn create_args(d: Disk, path: Seq<char>) -> Seq<Seq<char>> {
    seq!["create"@, "-f"@, format_name(d.format), path, dec(d.size as nat) + "G"@]
}

impl Disk {
    /// The `qemu-img` arguments that create this disk's image at `path`.
    pub fn create_args(&self, path: &str) -> (r: Vec<String>)
        ensures
            views(r@) == create_args(*self, path@),
    {
        let mut v: Vec<String> = Vec::new();
        v.push(String::from_str("create"));
        v.push(String::from_str("-f"));
        v.push(String::from_str(self.format.name()));
        v.push(String::from_str(path));
        let mut s = to_decimal(self.size);
        s.append("G");
        v.push(s);
        assert(views(v@) =~= create_args(*self, path@));
        v
    }
}

/// The form section that has the focus.
#[derive(Debug, Clone, Copy, PartialEq, Eq, Structural)]
pub enum DiskSection {
    Size,
    Format,
    Interface,
}

/// The form that describes a new disk; `size` is the typed size in GiB.
#[derive(Debug, Clone)]
pub struct DiskBuilder {
    pub section: DiskSection,
    pub format: Format,
    pub size: String,
    pub size_cursor: usize,
    pub size_error: Option<String>,
    pub interface: Interface,
}

/// The error the size field shows, given its text.
pub open spec fn size_field_error(text: Seq<char>) -> Option<Seq<char>> {
    if text.len() == 0 {
        Some("Field required"@)
    } else {
        match parse_unsigned(text, 65535) {
            Some(v) => if v == 0 {
                Some("Size can not be 0"@)
            } else {
                None
            },
            None => Some("Size value should be a number"@),
        }
    }
}

/// `key` reaches the size field: it neither moves the focus nor changes the
/// format or, on x86-64, the bus.
pub open spec fn disk_key_to_field(s: DiskSection, key: Key, arch: Arch) -> bool {
    &&& !is_down(key)
    &&& !is_up(key)
    &&& !(s == DiskSection::Format && (is_left(key) || is_right(key)))
    &&& !(s == DiskSection::Interface && arch == Arch::X86_64 && (is_left(key) || is_right(key)))
}

/// `g` is the disk form `f` after `key`: the vertical keys move the focus,
/// a side key on the format flips it, and on x86-64 a side key on the bus
/// flips it between virtio and IDE; the size text and its error stay.
pub open spec fn disk_form_after(f: DiskBuilder, g: DiskBuilder, key: Key, arch: Arch) -> bool {
    let side = !is_down(key) && !is_up(key) && (is_left(key) || is_right(key));
    &&& g.section == if is_down(key) {
        match f.section {
            DiskSection::Size => DiskSection::Format,
            DiskSection::Format => DiskSection::Interface,
            DiskSection::Interface => DiskSection::Size,
        }
    } else if is_up(key) {
        match f.section {
            DiskSection::Size => DiskSection::Interface,
            DiskSection::Format => DiskSection::Size,
            DiskSection::Interface => DiskSection::Format,
        }
    } else {
        f.section
    }
    &&& g.format == if side && f.section == DiskSection::Format {
        match f.format {
            Format::Qcow2 => Format::Raw,
            Format::Raw => Format::Qcow2,
        }
    } else {
        f.format
    }
    &&& g.interface == if side && f.section == DiskSection::Interface && arch == Arch::X86_64 {
        match f.interface {
            Interface::Virtio => Interface::Ide,
            Interface::Ide => Interface::Virtio,
            Interface::Pflash => Interface::Pflash,
        }
    } else {
        f.interface
    }
    &&& if disk_key_to_field(f.section, key, arch) {
        typed(f.size, f.size_cursor, g.size, g.size_cursor, key)
    } else {
        untouched(f.size, f.size_cursor, g.size, g.size_cursor)
    }
    &&& g.size_error == f.size_error
}

impl DiskBuilder {
    /// The form as it opens: the size field empty and without error, a qcow2
    /// disk on the virtio bus.
    pub open spec fn is_fresh(&self) -> bool {
        &&& self.section == DiskSection::Size
        &&& self.format == Format::Qcow2
        &&& self.size@ == Seq::<char>::empty()
        &&& self.size_cursor == 0
        &&& self.size_error is None
        &&& self.interface == Interface::Virtio
    }

    /// An empty form for a qcow2 disk on the virtio bus.
    pub fn new() -> (r: Self)
        ensures
            r.is_fresh(),
            r.section == DiskSection::Size,
            r.format == Format::Qcow2,
            r.size@ == Seq::<char>::empty(),
            r.size_error is None,
            r.interface == Interface::Virtio,
    {
        DiskBuilder {
            section: DiskSection::Size,
            format: Format::Qcow2,
            size: String::new(),
            size_cursor: 0,
            size_error: None,
            interface: Interface::Virtio,
        }
    }

    /// Checks the size and records its error; true when there is none.
    pub fn validate(&mut self) -> (valid: bool)
        ensures
            opt_view(final(self).size_error) == size_field_error(old(self).size@),
            valid == (size_field_error(old(self).size@) is None),
            final(self).section == old(self).section,
            final(self).format == old(self).format,
            final(self).size == old(self).size,
            final(self).size_cursor == old(self).size_cursor,
            final(self).interface == old(self).interface,
    {
        self.size_error = None;
        if self.size.as_str().unicode_len() == 0 {
            self.size_error = Some(String::from_str("Field required"));
            return false;
        }
        match parse_unsigned_str(self.size.as_str(), 65535) {
            Some(v) => {
                if v == 0 {
                    self.size_error = Some(String::from_str("Size can not be 0"));
                    false
                } else {
                    true
                }
            },
            None => {
                self.size_error = Some(String::from_str("Size value should be a number"));
                false
            },
        }
    }

    /// The disk the form describes.
    pub fn build(&self) -> (r: Disk)
        requires
            parse_unsigned(self.size@, 18446744073709551615) is Some,
        ensures
            r.size == parse_unsigned(self.size@, 18446744073709551615)->0,
            r.format == self.format,
            r.interface == self.interface,
    {
        let size = parse_unsigned_str(self.size.as_str(), 18446744073709551615).unwrap();
        Disk { size, format: self.format, interface: self.interface }
    }

    /// Reacts to a key: moves the focus, flips the format, or on x86-64 flips
    /// the bus between virtio and IDE; any other key edits the size field.
    /// Returns true when the key went to the size field.
    pub fn handle_key_events(&mut self, key: Key, arch: Arch) -> (to_field: bool)
        ensures
            disk_form_after(*old(self), *final(self), key, arch),
            to_field == disk_key_to_field(old(self).section, key, arch),
    {
        if key.down() {
            self.section = match self.section {
                DiskSection::Size => DiskSection::Format,
                DiskSection::Format => DiskSection::Interface,
                DiskSection::Interface => DiskSection::Size,
            };
            return false;
        }
        if key.up() {
            self.section = match self.section {
                DiskSection::Size => DiskSection::Interface,
                DiskSection::Format => DiskSection::Size,
                DiskSection::Interface => DiskSection::Format,
            };
            return false;
        }
        let side = key.left() || key.right();
        if side && self.section == DiskSection::Format {
            self.format = match self.format {
                Format::Qcow2 => Format::Raw,
                Format::Raw => Format::Qcow2,
            };
            return false;
        }
        if side && self.section == DiskSection::Interface && arch == Arch::X86_64 {
            self.interface = match self.interface {
                Interface::Virtio => Interface::Ide,
                Interface::Ide => Interface::Virtio,
                Interface::Pflash => Interface::Pflash,
            };
            return false;
        }
        edit_field(&mut self.size, &mut self.size_cursor, key);
        true
    }
}

/// In the disk form, Down then Up gives back the same form.
pub proof fn lemma_disk_form_down_up(f0: DiskBuilder, f1: DiskBuilder, f2: DiskBuilder, arch: Arch)
    requires
        disk_form_after(f0, f1, Key::Down, arch),
        disk_form_after(f1, f2, Key::Up, arch),
    ensures
        f2 == f0,
{
}

} // verus!
