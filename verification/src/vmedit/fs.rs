//! The shared directories section of the edit form: the VM's directories,
//! those added and those marked for removal.
use vstd::prelude::*;

use crate::fs::{
    Filesystem,
    FsView,
    NewFs,
    duplicate_fs,
    fs_form_after,
    fs_form_validated,
    fs_views,
    fs_without,
    retain_fs,
};
use crate::key::{Key, is_down, is_up};
use crate::selection::{row_above, row_below, select_next, select_prev};
use crate::vmbuilder::fs::{fresh_fs_form, fs_form_passes};

verus! {

/// The section: the VM's directories, the highlighted row (the VM's first,
/// then the added ones), the form while it is open, the added directories
/// and those marked for removal.
#[derive(Debug)]
pub struct FsEdit {
    pub selected: Option<usize>,
    pub new_fs: Option<NewFs>,
    pub added_fs: Vec<Filesystem>,
    pub deleted_fs: Vec<Filesystem>,
    pub fs: Vec<Filesystem>,
}

/// `vs` without every share that `dels` names, one after the other.
pub open spec fn fs_without_all(vs: Seq<FsView>, dels: Seq<FsView>) -> Seq<FsView>
    decreases dels.len(),
{
    if dels.len() == 0 {
        vs
    } else {
        fs_without(fs_without_all(vs, dels.drop_last()), dels.last())
    }
}

impl FsEdit {
    /// The section for a VM whose directories are `fs`, the first one
    /// highlighted.
    pub fn new(fs: Vec<Filesystem>) -> (r: Self)
        ensures
            r.fs == fs,
            r.selected == if fs@.len() == 0 {
                None
            } else {
                Some(0usize)
            },
            r.new_fs is None,
            r.added_fs@.len() == 0,
            r.deleted_fs@.len() == 0,
    {
        let selected = if fs.len() == 0 {
            None
        } else {
            Some(0)
        };
        FsEdit { selected, new_fs: None, added_fs: Vec::new(), deleted_fs: Vec::new(), fs }
    }

    /// The form of a new directory is open.
    pub fn new_fs_popup(&self) -> (r: bool)
        ensures
            r == self.new_fs is Some,
    {
        self.new_fs.is_some()
    }

    /// The directories the VM keeps: its own without those marked for
    /// removal, then the added ones.
    pub fn build(&self) -> (r: Vec<Filesystem>)
        ensures
            fs_views(r@) == fs_without_all(fs_views(self.fs@), fs_views(self.deleted_fs@))
                + fs_views(self.added_fs@),
    {
        let mut out = duplicate_fs(&self.fs);
        let ghost start = fs_views(self.fs@);
        let ghost dels = fs_views(self.deleted_fs@);
        let mut i: usize = 0;
        while i < self.deleted_fs.len()
            invariant
                i <= self.deleted_fs@.len(),
                dels == fs_views(self.deleted_fs@),
                fs_views(out@) == fs_without_all(start, dels.take(i as int)),
            decreases self.deleted_fs@.len() - i,
        {
            retain_fs(&mut out, &self.deleted_fs[i]);
            assert(dels.take(i + 1).drop_last() =~= dels.take(i as int));
            i = i + 1;
        }
        assert(dels.take(i as int) =~= dels);
        let added = duplicate_fs(&self.added_fs);
        let ghost mid = fs_views(out@);
        let mut j: usize = 0;
        while j < added.len()
            invariant
                j <= added@.len(),
                fs_views(added@) == fs_views(self.added_fs@),
                fs_views(out@) == mid + fs_views(added@.take(j as int)),
            decreases added@.len() - j,
        {
            let ghost before = out@;
            out.push(added[j].duplicate());
            assert(fs_views(out@) =~= fs_views(before).push(added@[j as int]@));
            j = j + 1;
            assert(fs_views(added@.take(j as int)) =~= fs_views(added@.take(j - 1)).push(
                added@[j - 1]@,
            ));
        }
        assert(added@.take(j as int) =~= added@);
        out
    }

    /// The number of rows: the VM's directories and the added ones.
    pub open spec fn rows(&self) -> nat {
        self.fs@.len() + self.added_fs@.len()
    }

    /// The key can be handled without a fault: moving the highlight down
    /// finds rows, and removing finds the highlight on one.
    pub open spec fn key_ok(&self, key: Key) -> bool {
        &&& self.rows() < usize::MAX
        &&& self.new_fs is None ==> {
            &&& (is_down(key) && self.selected is Some) ==> self.rows() > 0
            &&& (!is_down(key) && !is_up(key) && key == Key::Char('d') && self.selected is Some)
                ==> self.selected->0 < self.rows()
        }
    }

    /// Reacts to a key, given whether the form's source path exists. While
    /// the form is open, Esc closes it, Enter adds its directory when it is
    /// valid and other keys go to it. Otherwise the vertical keys move the
    /// highlight; `d` marks the highlighted directory of the VM for removal,
    /// or drops the highlighted added one; `u` takes back the removal of the
    /// highlighted directory of the VM; `n` opens the form. Returns true when
    /// the key belongs to a text field of the form.
    pub fn handle_key_events(&mut self, key: Key, source_exists: bool) -> (to_field: bool)
        requires
            old(self).key_ok(key),
        ensures
            final(self).fs == old(self).fs,
            match old(self).new_fs {
                Some(form) => if key == Key::Esc {
                    &&& final(self).new_fs is None
                    &&& final(self).added_fs == old(self).added_fs
                    &&& final(self).deleted_fs == old(self).deleted_fs
                    &&& final(self).selected == old(self).selected
                    &&& !to_field
                } else if key == Key::Enter {
                    &&& !to_field
                    &&& final(self).deleted_fs == old(self).deleted_fs
                    &&& fs_form_passes(form, source_exists) ==> {
                        &&& final(self).new_fs is None
                        &&& fs_views(final(self).added_fs@) == fs_views(old(self).added_fs@).push(
                            FsView {
                                driver: crate::fs::FsDriver::Virtio9pPci,
                                source_path: form.source_path@,
                                mount_tag: form.mount_tag@,
                                readonly: form.readonly,
                            },
                        )
                        &&& final(self).selected == match old(self).selected {
                            Some(i) => Some(i),
                            None => Some(0usize),
                        }
                    }
                    &&& !fs_form_passes(form, source_exists) ==> {
                        &&& (final(self).new_fs matches Some(f) && fs_form_validated(
                            form,
                            f,
                            source_exists,
                            false,
                        ))
                        &&& final(self).added_fs == old(self).added_fs
                        &&& final(self).selected == old(self).selected
                    }
                } else {
                    &&& (final(self).new_fs matches Some(f) && fs_form_after(form, f, key, to_field))
                    &&& final(self).added_fs == old(self).added_fs
                    &&& final(self).deleted_fs == old(self).deleted_fs
                    &&& final(self).selected == old(self).selected
                },
                None => {
                    let k = old(self).fs@.len();
                    &&& !to_field
                    &&& if is_down(key) {
                        &&& final(self).selected == match old(self).selected {
                            Some(i) => Some(row_below(i, old(self).rows())),
                            None => None,
                        }
                        &&& final(self).added_fs == old(self).added_fs
                        &&& final(self).deleted_fs == old(self).deleted_fs
                        &&& final(self).new_fs is None
                    } else if is_up(key) {
                        &&& final(self).selected == match old(self).selected {
                            Some(i) => Some(row_above(i)),
                            None => None,
                        }
                        &&& final(self).added_fs == old(self).added_fs
                        &&& final(self).deleted_fs == old(self).deleted_fs
                        &&& final(self).new_fs is None
                    } else if key == Key::Char('d') && old(self).selected is Some {
                        let i = old(self).selected->0;
                        &&& final(self).selected == old(self).selected
                        &&& final(self).new_fs is None
                        &&& if i < k {
                            &&& fs_views(final(self).deleted_fs@) == fs_views(
                                old(self).deleted_fs@,
                            ).push(old(self).fs@[i as int]@)
                            &&& final(self).added_fs == old(self).added_fs
                        } else {
                            &&& final(self).added_fs@ == old(self).added_fs@.remove(i - k)
                            &&& final(self).deleted_fs == old(self).deleted_fs
                        }
                    } else if key == Key::Char('u') && old(self).selected is Some
                        && old(self).selected->0 < k {
                        &&& fs_views(final(self).deleted_fs@) == fs_without(
                            fs_views(old(self).deleted_fs@),
                            old(self).fs@[old(self).selected->0 as int]@,
                        )
                        &&& final(self).added_fs == old(self).added_fs
                        &&& final(self).selected == old(self).selected
                        &&& final(self).new_fs is None
                    } else {
                        &&& final(self).added_fs == old(self).added_fs
                        &&& final(self).deleted_fs == old(self).deleted_fs
                        &&& final(self).selected == old(self).selected
                        &&& if key == Key::Char('n') {
                            final(self).new_fs matches Some(f) && fresh_fs_form(f)
                        } else {
                            final(self).new_fs is None
                        }
                    }
                },
            },
    {
        if self.new_fs.is_some() {
            let mut form = self.new_fs.take().unwrap();
            if key == Key::Esc {
                return false;
            }
            if key == Key::Enter {
                if form.validate(source_exists) {
                    let f = form.build();
                    let ghost before = self.added_fs@;
                    self.added_fs.push(f);
                    assert(fs_views(self.added_fs@) =~= fs_views(before).push(f@));
                    if self.selected.is_none() {
                        self.selected = Some(0);
                    }
                } else {
                    self.new_fs = Some(form);
                }
                return false;
            }
            let to_field = form.handle_key_events(key);
            self.new_fs = Some(form);
            return to_field;
        }
        let rows = self.fs.len() + self.added_fs.len();
        if key.down() {
            self.selected = select_next(self.selected, rows);
        } else if key.up() {
            self.selected = select_prev(self.selected);
        } else if key == Key::Char('d') {
            match self.selected {
                Some(i) => {
                    if i < self.fs.len() {
                        let ghost before = self.deleted_fs@;
                        self.deleted_fs.push(self.fs[i].duplicate());
                        assert(fs_views(self.deleted_fs@) =~= fs_views(before).push(
                            self.fs@[i as int]@,
                        ));
                    } else {
                        self.added_fs.remove(i - self.fs.len());
                    }
                },
                None => {},
            }
        } else if key == Key::Char('u') {
            match self.selected {
                Some(i) => {
                    if i < self.fs.len() {
                        retain_fs(&mut self.deleted_fs, &self.fs[i]);
                    }
                },
                None => {},
            }
        } else if key == Key::Char('n') {
            self.new_fs = Some(NewFs::new());
        }
        false
    }
}

} // verus!
