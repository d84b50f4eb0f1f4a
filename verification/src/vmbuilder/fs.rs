//! The shared directories of a new VM, and the form of a new one.
use vstd::prelude::*;

use crate::fs::{Filesystem, FsSection, NewFs, all_alphanumeric, duplicate_fs, fs_form_after, fs_form_validated, fs_views};
use crate::key::{Key, is_down, is_up};
use crate::selection::{row_above, row_below, select_next, select_prev};

verus! {

/// The directories added so far, the highlighted one, and the form while
/// it is open.
#[derive(Debug)]
pub struct FsBuilder {
    pub fs: Vec<Filesystem>,
    pub selected: Option<usize>,
    pub new_fs: Option<NewFs>,
}

/// The form as it opens.
pub open spec fn fresh_fs_form(f: NewFs) -> bool {
    &&& f.section == FsSection::SourcePath
    &&& f.source_path@ == Seq::<char>::empty()
    &&& f.mount_tag@ == Seq::<char>::empty()
    &&& f.source_path_cursor == 0
    &&& f.mount_tag_cursor == 0
    &&& f.source_path_error is None
    &&& f.mount_tag_error is None
    &&& !f.readonly
}

/// The form's check passes, given whether its source path exists.
pub open spec fn fs_form_passes(f: NewFs, source_exists: bool) -> bool {
    f.source_path@.len() > 0 && source_exists && f.mount_tag@.len() > 0 && all_alphanumeric(
        f.mount_tag@,
    )
}

impl FsBuilder {
    /// No directory, nothing highlighted, no form open.
    pub fn new() -> (r: Self)
        ensures
            r.fs@.len() == 0,
            r.selected is None,
            r.new_fs is None,
    {
        FsBuilder { fs: Vec::new(), selected: None, new_fs: None }
    }

    /// The form of a new directory is open.
    pub fn new_fs_popup(&self) -> (r: bool)
        ensures
            r == self.new_fs is Some,
    {
        self.new_fs.is_some()
    }

    /// A copy of the directories.
    pub fn filesystems(&self) -> (r: Vec<Filesystem>)
        ensures
            fs_views(r@) == fs_views(self.fs@),
    {
        duplicate_fs(&self.fs)
    }

    /// The key can be handled without a fault: moving the highlight down
    /// finds rows, and removing finds the highlight on one (removing does not
    /// move the highlight).
    pub open spec fn key_ok(&self, key: Key) -> bool {
        &&& self.fs@.len() < usize::MAX
        &&& self.new_fs is None ==> {
            &&& (is_down(key) && self.selected is Some) ==> self.fs@.len() > 0
            &&& (!is_down(key) && !is_up(key) && key == Key::Char('d') && self.selected is Some)
                ==> self.selected->0 < self.fs@.len()
        }
    }

    /// Reacts to a key, given whether the form's source path exists. While
    /// the form is open, Esc closes it, Enter adds its directory when it is
    /// valid and other keys go to it; otherwise the vertical keys move the
    /// highlight, `d` removes the highlighted directory and `n` opens the
    /// form. Returns true when the key belongs to a text field of the form.
    pub fn handle_key_events(&mut self, key: Key, source_exists: bool) -> (to_field: bool)
        requires
            old(self).key_ok(key),
        ensures
            match old(self).new_fs {
                Some(form) => if key == Key::Esc {
                    &&& final(self).new_fs is None
                    &&& final(self).fs == old(self).fs
                    &&& final(self).selected == old(self).selected
                    &&& !to_field
                } else if key == Key::Enter {
                    &&& !to_field
                    &&& fs_form_passes(form, source_exists) ==> {
                        &&& final(self).new_fs is None
                        &&& fs_views(final(self).fs@) == fs_views(old(self).fs@).push(
                            crate::fs::FsView {
                                driver: crate::fs::FsDriver::Virtio9pPci,
                                source_path: form.source_path@,
                                mount_tag: form.mount_tag@,
                                readonly: form.readonly,
                            },
                        )
                        &&& final(self).selected == match old(self).selected {
                            Some(i) => Some(i),
                            None => Some(0usize),
                        }
                    }
                    &&& !fs_form_passes(form, source_exists) ==> {
                        &&& (final(self).new_fs matches Some(f) && fs_form_validated(
                            form,
                            f,
                            source_exists,
                            false,
                        ))
                        &&& final(self).fs == old(self).fs
                        &&& final(self).selected == old(self).selected
                    }
                } else {
                    &&& (final(self).new_fs matches Some(f) && fs_form_after(form, f, key, to_field))
                    &&& final(self).fs == old(self).fs
                    &&& final(self).selected == old(self).selected
                },
                None => {
                    &&& !to_field
                    &&& if is_down(key) {
                        &&& final(self).selected == match old(self).selected {
                            Some(i) => Some(row_below(i, old(self).fs@.len())),
                            None => None,
                        }
                        &&& final(self).fs == old(self).fs
                        &&& final(self).new_fs is None
                    } else if is_up(key) {
                        &&& final(self).selected == match old(self).selected {
                            Some(i) => Some(row_above(i)),
                            None => None,
                        }
                        &&& final(self).fs == old(self).fs
                        &&& final(self).new_fs is None
                    } else if key == Key::Char('d') && old(self).selected is Some {
                        &&& final(self).fs@ == old(self).fs@.remove(old(self).selected->0 as int)
                        &&& final(self).selected == old(self).selected
                        &&& final(self).new_fs is None
                    } else {
                        &&& final(self).fs == old(self).fs
                        &&& final(self).selected == old(self).selected
                        &&& if key == Key::Char('n') {
                            final(self).new_fs matches Some(f) && fresh_fs_form(f)
                        } else {
                            final(self).new_fs is None
                        }
                    }
                },
            },
    {
        if self.new_fs.is_some() {
            let mut form = self.new_fs.take().unwrap();
            if key == Key::Esc {
                return false;
            }
            if key == Key::Enter {
                if form.validate(source_exists) {
                    let f = form.build();
                    let ghost before = self.fs@;
                    self.fs.push(f);
                    assert(fs_views(self.fs@) =~= fs_views(before).push(f@));
                    if self.selected.is_none() {
                        self.selected = Some(0);
                    }
                } else {
                    self.new_fs = Some(form);
                }
                return false;
            }
            let to_field = form.handle_key_events(key);
            self.new_fs = Some(form);
            return to_field;
        }
        if key.down() {
            self.selected = select_next(self.selected, self.fs.len());
        } else if key.up() {
            self.selected = select_prev(self.selected);
        } else if key == Key::Char('d') {
            match self.selected {
                Some(i) => {
                    self.fs.remove(i);
                },
                None => {},
            }
        } else if key == Key::Char('n') {
            self.new_fs = Some(NewFs::new());
        }
        false
    }
}

} // verus!
