//! Remote access to a guest's screen.
pub mod vnc;

use vstd::prelude::*;

use crate::text::views;
use vnc::{VNC, vnc_args};

verus! {

/// How the guest's screen is reached from elsewhere.
#[derive(Debug, Clone)]
pub enum RemoteAccess {
    Vnc(VNC),
    Spice,
}

impl RemoteAccess {
    /// The QEMU arguments that open this remote access. Spice is not offered
    /// yet, so it is left out.
    pub fn to_qemu_arg(&self) -> (r: Vec<String>)
        requires
            self is Vnc,
        ensures
            views(r@) == vnc_args(self->Vnc_0),
    {
        match self {
            RemoteAccess::Vnc(vnc) => vnc.to_qemu_arg(),
            RemoteAccess::Spice => Vec::new(),
        }
    }
}

} // verus!
