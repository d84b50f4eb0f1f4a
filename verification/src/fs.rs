//! Host directories shared with a guest, and the form that adds one.
use vstd::prelude::*;
use vstd::string::*;

use crate::edit::{edit_field, typed, untouched};
use crate::key::Key;
use crate::network::port_forwarding::opt_view;
use crate::text::{str_equal, views};

verus! {

/// How a shared directory reaches the guest.
#[derive(Debug, Clone, Copy, PartialEq, Eq, Structural)]
pub enum FsDriver {
    Virtio9pPci,
}

impl Default for FsDriver {
    fn default() -> (r: Self)
        ensures
            r == FsDriver::Virtio9pPci,
    {
        FsDriver::Virtio9pPci
    }
}

impl FsDriver {
    /// The display name (`9pfs`).
    pub fn name(&self) -> (r: &'static str)
        ensures
            r@ == "9pfs"@,
    {
        "9pfs"
    }
}

/// A host directory shared with the guest under a mount tag.
#[derive(Debug, Clone)]
pub struct Filesystem {
    pub driver: FsDriver,
    pub source_path: String,
    pub mount_tag: String,
    pub readonly: bool,
}

/// The QEMU arguments that share `f` with the guest.
pub open spec fn fs_args(f: Filesystem) -> Seq<Seq<char>> {
    seq![
        "-virtfs"@,
        "local,path="@ + f.source_path@ + ",mount_tag="@ + f.mount_tag@
            + ",security_model=none,readonly="@ + if f.readonly {
            "on"@
        } else {
            "off"@
        },
    ]
}

/// What a share is, as plain values.
pub struct FsView {
    pub driver: FsDriver,
    pub source_path: Seq<char>,
    pub mount_tag: Seq<char>,
    pub readonly: bool,
}

impl View for Filesystem {
    type V = FsView;

    open spec fn view(&self) -> FsView {
        FsView {
            driver: self.driver,
            source_path: self.source_path@,
            mount_tag: self.mount_tag@,
            readonly: self.readonly,
        }
    }
}

/// The views of a list of shares.
pub open spec fn fs_views(v: Seq<Filesystem>) -> Seq<FsView> {
    v.map_values(|f: Filesystem| f@)
}

/// `vs` without the shares equal to `f`.
pub open spec fn fs_without(vs: Seq<FsView>, f: FsView) -> Seq<FsView> {
    vs.filter(|x: FsView| x != f)
}

/// Whether two shares are the same in every field.
pub fn fs_eq(a: &Filesystem, b: &Filesystem) -> (r: bool)
    ensures
        r == (a@ == b@),
{
    a.driver == b.driver && str_equal(a.source_path.as_str(), b.source_path.as_str()) && str_equal(
        a.mount_tag.as_str(),
        b.mount_tag.as_str(),
    ) && a.readonly == b.readonly
}

/// Keeps the shares of `v` that differ from `f`.
pub fn retain_fs(v: &mut Vec<Filesystem>, f: &Filesystem)
    ensures
        fs_views(final(v)@) == fs_without(fs_views(old(v)@), f@),
{
    let ghost vs = fs_views(v@);
    let mut out: Vec<Filesystem> = Vec::new();
    let mut i: usize = 0;
    while i < v.len()
        invariant
            i <= v@.len(),
            vs == fs_views(v@),
            fs_views(out@) == fs_without(vs.take(i as int), f@),
        decreases v@.len() - i,
    {
        proof {
            reveal(Seq::filter);
            assert(vs.take(i + 1).drop_last() =~= vs.take(i as int));
        }
        if !fs_eq(&v[i], f) {
            let ghost before = out@;
            out.push(v[i].duplicate());
            assert(fs_views(out@) =~= fs_views(before).push(vs[i as int]));
        }
        i = i + 1;
    }
    assert(vs.take(v@.len() as int) =~= vs);
    *v = out;
}

/// A copy of a list of shares.
pub fn duplicate_fs(v: &Vec<Filesystem>) -> (r: Vec<Filesystem>)
    ensures
        fs_views(r@) == fs_views(v@),
{
    let mut out: Vec<Filesystem> = Vec::new();
    let mut i: usize = 0;
    while i < v.len()
        invariant
            i <= v@.len(),
            fs_views(out@) == fs_views(v@.take(i as int)),
        decreases v@.len() - i,
    {
        let ghost before = out@;
        out.push(v[i].duplicate());
        assert(fs_views(out@) =~= fs_views(before).push(v@[i as int]@));
        i = i + 1;
        assert(fs_views(v@.take(i as int)) =~= fs_views(v@.take(i - 1)).push(v@[i - 1]@));
    }
    assert(v@.take(v@.len() as int) =~= v@);
    out
}

impl Filesystem {
    /// A copy of this share.
    pub fn duplicate(&self) -> (r: Filesystem)
        ensures
            r@ == self@,
    {
        Filesystem {
            driver: self.driver,
            source_path: self.source_path.clone(),
            mount_tag: self.mount_tag.clone(),
            readonly: self.readonly,
        }
    }

    /// The QEMU arguments that share this directory with the guest.
    pub fn to_qemu_arg(&self) -> (r: Vec<String>)
        ensures
            views(r@) == fs_args(*self),
    {
        let mut a = String::from_str("local,path=");
        a.append(self.source_path.as_str());
        a.append(",mount_tag=");
        a.append(self.mount_tag.as_str());
        a.append(",security_model=none,readonly=");
        if self.readonly {
            a.append("on");
        } else {
            a.append("off");
        }
        let mut v: Vec<String> = Vec::new();
        v.push(String::from_str("-virtfs"));
        v.push(a);
        assert(views(v@) =~= fs_args(*self));
        v
    }
}

/// What `char::is_alphanumeric` returns for `c` (Unicode alphabetic or numeric).
pub uninterp spec fn char_alphanumeric(c: char) -> bool;

/// Calls `char::is_alphanumeric`; the result is named `char_alphanumeric`.
#[verifier::external_body]
fn is_alphanumeric(c: char) -> (r: bool)
    ensures
        r == char_alphanumeric(c),
{
    c.is_alphanumeric()
}

/// Every character of `s` is alphanumeric.
pub open spec fn all_alphanumeric(s: Seq<char>) -> bool {
    forall|i: int| 0 <= i < s.len() ==> char_alphanumeric(#[trigger] s[i])
}

/// The form section that has the focus.
#[derive(Debug, Clone, Copy, PartialEq, Eq, Structural)]
pub enum FsSection {
    SourcePath,
    MountTag,
    ReadOnly,
}

/// The form that describes a new shared directory.
#[derive(Debug, Clone)]
pub struct NewFs {
    pub section: FsSection,
    pub driver: FsDriver,
    pub source_path: String,
    pub source_path_cursor: usize,
    pub source_path_error: Option<String>,
    pub mount_tag: String,
    pub mount_tag_cursor: usize,
    pub mount_tag_error: Option<String>,
    pub readonly: bool,
}

/// `n` is the share form `o` after its check, given whether the typed source
/// path exists, and `valid` is the check's outcome.
pub open spec fn fs_form_validated(o: NewFs, n: NewFs, source_exists: bool, valid: bool) -> bool {
    &&& valid == (o.source_path@.len() > 0 && source_exists && o.mount_tag@.len()
                > 0 && all_alphanumeric(o.mount_tag@))
    &&& opt_view(n.source_path_error) == if o.mount_tag@.len() > 0
                && !all_alphanumeric(o.mount_tag@) {
                Some("Mount tag should be alphanumeric"@)
            } else if o.source_path@.len() == 0 {
                Some("Field required"@)
            } else if !source_exists {
                Some("Invalid Path"@)
            } else {
                opt_view(o.source_path_error)
            }
    &&& opt_view(n.mount_tag_error) == if o.mount_tag@.len() == 0 {
                Some("Field required"@)
            } else {
                opt_view(o.mount_tag_error)
            }
    &&& n.section == o.section
    &&& n.source_path == o.source_path
    &&& n.source_path_cursor == o.source_path_cursor
    &&& n.mount_tag == o.mount_tag
    &&& n.mount_tag_cursor == o.mount_tag_cursor
    &&& n.readonly == o.readonly
    &&& n.driver == o.driver
}

/// `n` is the share form `o` after `key`, and `to_field` says whether the key
/// went to the focused text field, which it edits.
pub open spec fn fs_form_after(o: NewFs, n: NewFs, key: Key, to_field: bool) -> bool {
    &&& (key == Key::Down ==> n.section == match o.section {
                FsSection::SourcePath => FsSection::MountTag,
                FsSection::MountTag => FsSection::ReadOnly,
                FsSection::ReadOnly => FsSection::SourcePath,
            })
    &&& (key == Key::Up ==> n.section == match o.section {
                FsSection::SourcePath => FsSection::ReadOnly,
                FsSection::MountTag => FsSection::SourcePath,
                FsSection::ReadOnly => FsSection::MountTag,
            })
    &&& (key != Key::Down && key != Key::Up ==> n.section == o.section)
    &&& n.readonly == (o.readonly != (key != Key::Down && key != Key::Up
                && o.section == FsSection::ReadOnly && (key == Key::Left || key
                == Key::Right || key == Key::Char('h') || key == Key::Char('l'))))
    &&& to_field == (key != Key::Down && key != Key::Up && o.section
                != FsSection::ReadOnly)
    &&& if to_field && o.section == FsSection::SourcePath {
        typed(o.source_path, o.source_path_cursor, n.source_path, n.source_path_cursor, key)
    } else {
        untouched(o.source_path, o.source_path_cursor, n.source_path, n.source_path_cursor)
    }
    &&& if to_field && o.section == FsSection::MountTag {
        typed(o.mount_tag, o.mount_tag_cursor, n.mount_tag, n.mount_tag_cursor, key)
    } else {
        untouched(o.mount_tag, o.mount_tag_cursor, n.mount_tag, n.mount_tag_cursor)
    }
    &&& n.driver == o.driver
    &&& n.source_path_error == o.source_path_error
    &&& n.mount_tag_error == o.mount_tag_error
}

impl NewFs {
    /// An empty, writable share.
    pub fn new() -> (r: Self)
        ensures
            r.section == FsSection::SourcePath,
            r.source_path@ == Seq::<char>::empty(),
            r.source_path_cursor == 0,
            r.mount_tag@ == Seq::<char>::empty(),
            r.mount_tag_cursor == 0,
            r.source_path_error is None,
            r.mount_tag_error is None,
            !r.readonly,
    {
        NewFs {
            section: FsSection::SourcePath,
            driver: FsDriver::Virtio9pPci,
            source_path: String::new(),
            source_path_cursor: 0,
            source_path_error: None,
            mount_tag: String::new(),
            mount_tag_cursor: 0,
            mount_tag_error: None,
            readonly: false,
        }
    }

    /// Checks the form and records the errors; true when there is none.
    /// `source_exists` tells whether the typed source path exists on the host.
    /// A mount tag that is not alphanumeric is reported on the source path field.
    pub fn validate(&mut self, source_exists: bool) -> (valid: bool)
        ensures
            fs_form_validated(*old(self), *final(self), source_exists, valid),
    {
        let mut valid = true;
        if self.source_path.as_str().unicode_len() == 0 {
            self.source_path_error = Some(String::from_str("Field required"));
            valid = false;
        } else if !source_exists {
            self.source_path_error = Some(String::from_str("Invalid Path"));
            valid = false;
        }
        let tag = self.mount_tag.as_str();
        let n = tag.unicode_len();
        if n == 0 {
            self.mount_tag_error = Some(String::from_str("Field required"));
            valid = false;
        } else {
            let mut i: usize = 0;
            let mut all = true;
            while i < n
                invariant
                    i <= n,
                    n == tag@.len(),
                    all == forall|k: int| 0 <= k < i ==> char_alphanumeric(#[trigger] tag@[k]),
                decreases n - i,
            {
                if !is_alphanumeric(tag.get_char(i)) {
                    all = false;
                }
                i = i + 1;
            }
            if !all {
                self.source_path_error = Some(String::from_str("Mount tag should be alphanumeric"));
                valid = false;
            }
        }
        valid
    }

    /// The share the form describes.
    pub fn build(&self) -> (r: Filesystem)
        ensures
            r.driver == FsDriver::Virtio9pPci,
            r.source_path@ == self.source_path@,
            r.mount_tag@ == self.mount_tag@,
            r.readonly == self.readonly,
    {
        Filesystem {
            driver: FsDriver::Virtio9pPci,
            source_path: self.source_path.clone(),
            mount_tag: self.mount_tag.clone(),
            readonly: self.readonly,
        }
    }

    /// Reacts to a key: the arrow keys move the focus, the side keys (and `h`,
    /// `l`) flip read-only; other keys edit the focused text field. Returns
    /// true when the key went to a text field.
    pub fn handle_key_events(&mut self, key: Key) -> (to_field: bool)
        ensures
            fs_form_after(*old(self), *final(self), key, to_field),
    {
        match key {
            Key::Down => {
                self.section = match self.section {
                    FsSection::SourcePath => FsSection::MountTag,
                    FsSection::MountTag => FsSection::ReadOnly,
                    FsSection::ReadOnly => FsSection::SourcePath,
                };
                false
            },
            Key::Up => {
                self.section = match self.section {
                    FsSection::SourcePath => FsSection::ReadOnly,
                    FsSection::MountTag => FsSection::SourcePath,
                    FsSection::ReadOnly => FsSection::MountTag,
                };
                false
            },
            _ => match self.section {
                FsSection::ReadOnly => {
                    if key.left() || key.right() {
                        self.readonly = !self.readonly;
                    }
                    false
                },
                FsSection::SourcePath => {
                    edit_field(&mut self.source_path, &mut self.source_path_cursor, key);
                    true
                },
                FsSection::MountTag => {
                    edit_field(&mut self.mount_tag, &mut self.mount_tag_cursor, key);
                    true
                },
            },
        }
    }
}

} // verus!
