//! The storage section of the advanced form: the extra disks of the new VM.
use vstd::prelude::*;

use crate::arch::Arch;
use crate::key::{Key, is_down, is_up};
use crate::selection::{
    after_removal,
    row_above,
    row_below,
    select_next,
    select_prev,
    selection_wf,
};
use crate::storage::{Disk, DiskBuilder, disk_form_after, disk_key_to_field, size_field_error};
use crate::network::port_forwarding::opt_view;
use crate::text::parse_unsigned;

verus! {

/// The disks added so far, the highlighted one, and the form of a new disk
/// while it is open.
#[derive(Debug, Clone)]
pub struct Storage {
    pub disks: Vec<Disk>,
    pub selected: Option<usize>,
    pub new_disk: Option<DiskBuilder>,
}

/// What a key does to the list while no form is open.
pub open spec fn storage_list_step(
    disks: Seq<Disk>,
    sel: Option<usize>,
    key: Key,
) -> (Seq<Disk>, Option<usize>) {
    if is_down(key) {
        (
            disks,
            match sel {
                Some(i) => Some(row_below(i, disks.len())),
                None => None,
            },
        )
    } else if is_up(key) {
        (
            disks,
            match sel {
                Some(i) => Some(row_above(i)),
                None => None,
            },
        )
    } else if key == Key::Char('d') {
        match sel {
            Some(i) => (disks.remove(i as int), after_removal(i, (disks.len() - 1) as nat)),
            None => (disks, sel),
        }
    } else {
        (disks, sel)
    }
}

/// `n` is the storage section `o` after `key` on a VM of architecture `arch`,
/// and `to_field` says whether the key belongs to the form's size field.
pub open spec fn storage_after(o: Storage, n: Storage, key: Key, arch: Arch, to_field: bool) -> bool {
    &&& (match o.new_disk {
                Some(form) => if key == Key::Esc {
                    &&& n.new_disk is None
                    &&& n.disks@ == o.disks@
                    &&& n.selected == o.selected
                    &&& !to_field
                } else if key == Key::Enter {
                    let ok = size_field_error(form.size@) is None;
                    &&& !to_field
                    &&& ok ==> {
                        &&& n.new_disk is None
                        &&& n.disks@ == o.disks@.push(
                            Disk {
                                size: parse_unsigned(form.size@, 18446744073709551615)->0 as u64,
                                format: form.format,
                                interface: form.interface,
                            },
                        )
                        &&& n.selected == match o.selected {
                            Some(i) => Some(i),
                            None => Some(0usize),
                        }
                    }
                    &&& !ok ==> {
                        &&& (n.new_disk matches Some(f) && f.section == form.section
                            && f.format == form.format && f.size == form.size && f.interface
                            == form.interface && opt_view(f.size_error) == size_field_error(
                            form.size@,
                        ))
                        &&& n.disks@ == o.disks@
                        &&& n.selected == o.selected
                    }
                } else {
                    &&& to_field == disk_key_to_field(form.section, key, arch)
                    &&& (n.new_disk matches Some(f) && disk_form_after(form, f, key, arch))
                    &&& n.disks@ == o.disks@
                    &&& n.selected == o.selected
                },
                None => {
                    let (ds, sel) = storage_list_step(o.disks@, o.selected, key);
                    &&& !to_field
                    &&& n.disks@ == ds
                    &&& n.selected == sel
                    &&& if key == Key::Char('n') {
                        n.new_disk matches Some(f) && f.is_fresh()
                    } else {
                        n.new_disk is None
                    }
                },
            })
}

impl Storage {
    /// No disk, nothing highlighted, no form open.
    pub fn new() -> (r: Self)
        ensures
            r.disks@ == Seq::<Disk>::empty(),
            r.selected is None,
            r.new_disk is None,
            r.wf(),
    {
        Storage { disks: Vec::new(), selected: None, new_disk: None }
    }

    /// The highlight is on a disk, and there is one when there are disks.
    pub open spec fn wf(&self) -> bool {
        selection_wf(self.selected, self.disks@.len())
    }

    /// The disks added so far.
    pub fn disks(&self) -> (r: Vec<Disk>)
        ensures
            r@ == self.disks@,
    {
        self.disks.clone()
    }

    /// The form of a new disk is open.
    pub fn new_disk_popup(&self) -> (r: bool)
        ensures
            r == self.new_disk is Some,
    {
        self.new_disk.is_some()
    }

    /// Reacts to a key. While the form is open, Esc closes it, Enter adds its
    /// disk when it is valid, and other keys go to the form; otherwise the
    /// vertical keys move the highlight, `d` removes the highlighted disk and
    /// `n` opens the form. Returns true when the key belongs to the form's
    /// size field.
    pub fn handle_key_events(&mut self, key: Key, arch: Arch) -> (to_field: bool)
        requires
            old(self).wf(),
            old(self).disks@.len() < usize::MAX,
        ensures
            storage_after(*old(self), *final(self), key, arch, to_field),
            final(self).wf(),
    {
        if self.new_disk.is_some() {
            let mut form = self.new_disk.take().unwrap();
            if key == Key::Esc {
                return false;
            }
            if key == Key::Enter {
                if form.validate() {
                    let disk = form.build();
                    self.disks.push(disk);
                    if self.selected.is_none() {
                        self.selected = Some(0);
                    }
                } else {
                    self.new_disk = Some(form);
                }
                return false;
            }
            let to_field = form.handle_key_events(key, arch);
            self.new_disk = Some(form);
            return to_field;
        }
        if key.down() {
            self.selected = select_next(self.selected, self.disks.len());
        } else if key.up() {
            self.selected = select_prev(self.selected);
        } else if key == Key::Char('d') {
            match self.selected {
                Some(i) => {
                    self.disks.remove(i);
                    self.selected = if self.disks.len() > 0 {
                        Some(i.saturating_sub(1))
                    } else {
                        None
                    };
                },
                None => {},
            }
        } else if key == Key::Char('n') {
            self.new_disk = Some(DiskBuilder::new());
        }
        false
    }
}

} // verus!
