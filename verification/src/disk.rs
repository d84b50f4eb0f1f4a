//! A standalone disk image, and the two-field form that describes one.
use vstd::prelude::*;
use vstd::string::*;

use crate::edit::{edit_field, typed, untouched};
use crate::key::Key;
use crate::network::port_forwarding::opt_view;
use crate::storage::size_field_error;
use crate::text::{dec, parse_unsigned, parse_unsigned_str, to_decimal, views};

verus! {

/// The format of a standalone disk image.
#[derive(Debug, Clone, Copy, PartialEq, Eq, Structural)]
pub enum DiskFormat {
    Qcow2,
    Raw,
}

impl Default for DiskFormat {
    fn default() -> (r: Self)
        ensures
            r == DiskFormat::Qcow2,
    {
        DiskFormat::Qcow2
    }
}

/// The name `qemu-img` knows a format by.
pub open spec fn disk_format_name(f: DiskFormat) -> Seq<char> {
    match f {
        DiskFormat::Qcow2 => "qcow2"@,
        DiskFormat::Raw => "raw"@,
    }
}

impl DiskFormat {
    /// The name `qemu-img` knows the format by.
    pub fn name(&self) -> (r: &'static str)
        ensures
            r@ == disk_format_name(*self),
    {
        match self {
            DiskFormat::Qcow2 => "qcow2",
            DiskFormat::Raw => "raw",
        }
    }
}

/// A disk image at `path`, `size` GiB large.
#[derive(Debug, Clone)]
pub struct Disk {
    pub path: String,
    pub size: u32,
    pub format: DiskFormat,
}

/// The `qemu-img` arguments that create the image of `d`.
pub open spec fn disk_create_args(d: Disk) -> Seq<Seq<char>> {
    seq!["create"@, "-f"@, disk_format_name(d.format), d.path@, dec(d.size as nat) + "G"@]
}

impl Disk {
    /// The `qemu-img` arguments that create this image.
    pub fn create_args(&self) -> (r: Vec<String>)
        ensures
            views(r@) == disk_create_args(*self),
    {
        let mut v: Vec<String> = Vec::new();
        v.push(String::from_str("create"));
        v.push(String::from_str("-f"));
        v.push(String::from_str(self.format.name()));
        v.push(self.path.clone());
        let mut s = to_decimal(self.size as u64);
        s.append("G");
        v.push(s);
        assert(views(v@) =~= disk_create_args(*self));
        v
    }
}

/// The field of the form that has the focus.
#[derive(Debug, Clone, Copy, PartialEq, Eq, Structural)]
pub enum Section {
    Size,
    Format,
}

/// The form: the typed size in GiB, its error, and the format.
#[derive(Debug, Clone)]
pub struct DiskBuilder {
    pub section: Section,
    pub size: String,
    pub size_cursor: usize,
    pub size_error: Option<String>,
    pub format: DiskFormat,
}

/// `g` is the form `f` after `key`: the arrow keys Up and Down move the
/// focus between the two fields, Left and Right on the format flip it, and
/// any other key edits the size text; its error stays.
pub open spec fn builder_after(f: DiskBuilder, g: DiskBuilder, key: Key) -> bool {
    let vertical = key == Key::Down || key == Key::Up;
    let side = key == Key::Left || key == Key::Right;
    &&& g.section == if vertical {
        match f.section {
            Section::Size => Section::Format,
            Section::Format => Section::Size,
        }
    } else {
        f.section
    }
    &&& g.format == if !vertical && side && f.section == Section::Format {
        match f.format {
            DiskFormat::Qcow2 => DiskFormat::Raw,
            DiskFormat::Raw => DiskFormat::Qcow2,
        }
    } else {
        f.format
    }
    &&& if builder_key_to_field(f.section, key) {
        typed(f.size, f.size_cursor, g.size, g.size_cursor, key)
    } else {
        untouched(f.size, f.size_cursor, g.size, g.size_cursor)
    }
    &&& g.size_error == f.size_error
}

/// `key` goes to the size field.
pub open spec fn builder_key_to_field(s: Section, key: Key) -> bool {
    &&& key != Key::Down
    &&& key != Key::Up
    &&& !(s == Section::Format && (key == Key::Left || key == Key::Right))
}

impl DiskBuilder {
    /// An empty form for a qcow2 image.
    pub fn new() -> (r: Self)
        ensures
            r.section == Section::Size,
            r.size@ == Seq::<char>::empty(),
            r.size_cursor == 0,
            r.size_error is None,
            r.format == DiskFormat::Qcow2,
    {
        DiskBuilder {
            section: Section::Size,
            size: String::new(),
            size_cursor: 0,
            size_error: None,
            format: DiskFormat::Qcow2,
        }
    }

    /// Reacts to a key: moves the focus or flips the format; any other key
    /// edits the size field. Returns true when the key went to the size field.
    pub fn handle_key_events(&mut self, key: Key) -> (to_field: bool)
        ensures
            builder_after(*old(self), *final(self), key),
            to_field == builder_key_to_field(old(self).section, key),
    {
        match key {
            Key::Down | Key::Up => {
                self.section = match self.section {
                    Section::Size => Section::Format,
                    Section::Format => Section::Size,
                };
                false
            },
            Key::Left | Key::Right => {
                if self.section == Section::Format {
                    self.format = match self.format {
                        DiskFormat::Qcow2 => DiskFormat::Raw,
                        DiskFormat::Raw => DiskFormat::Qcow2,
                    };
                    false
                } else {
                    edit_field(&mut self.size, &mut self.size_cursor, key);
                    true
                }
            },
            _ => {
                edit_field(&mut self.size, &mut self.size_cursor, key);
                true
            },
        }
    }

    /// Checks the size and records its error; true when there is none.
    pub fn validate(&mut self) -> (valid: bool)
        ensures
            opt_view(final(self).size_error) == size_field_error(old(self).size@),
            valid == (size_field_error(old(self).size@) is None),
            final(self).section == old(self).section,
            final(self).format == old(self).format,
            final(self).size == old(self).size,
            final(self).size_cursor == old(self).size_cursor,
    {
        self.size_error = None;
        if self.size.as_str().unicode_len() == 0 {
            self.size_error = Some(String::from_str("Field required"));
            return false;
        }
        match parse_unsigned_str(self.size.as_str(), 65535) {
            Some(v) => {
                if v == 0 {
                    self.size_error = Some(String::from_str("Size can not be 0"));
                    false
                } else {
                    true
                }
            },
            None => {
                self.size_error = Some(String::from_str("Size value should be a number"));
                false
            },
        }
    }

    /// The image the form describes, to be created at `path`.
    pub fn build(&self, path: String) -> (r: Disk)
        requires
            parse_unsigned(self.size@, 4294967295) is Some,
        ensures
            r.size == parse_unsigned(self.size@, 4294967295)->0,
            r.format == self.format,
            r.path@ == path@,
    {
        let size = parse_unsigned_str(self.size.as_str(), 4294967295).unwrap();
        Disk { path, size: size as u32, format: self.format }
    }
}

/// In the form, Down then Down gives back the same form.
pub proof fn lemma_builder_down_down(f0: DiskBuilder, f1: DiskBuilder, f2: DiskBuilder)
    requires
        builder_after(f0, f1, Key::Down),
        builder_after(f1, f2, Key::Down),
    ensures
        f2 == f0,
{
}

} // verus!
