//! The network section of the advanced form.
use vstd::prelude::*;

use crate::network::NetworkBackend;

verus! {

/// The backend chosen for the new VM's network (only the user-mode backend
/// is offered).
#[derive(Debug, Clone, Copy)]
pub struct Network {
    pub backend: NetworkBackend,
}

impl Network {
    /// The section with the user-mode backend.
    pub fn new() -> (r: Self)
        ensures
            r.backend == NetworkBackend::User,
    {
        Network { backend: NetworkBackend::User }
    }

    /// The chosen backend.
    pub fn backend(&self) -> (r: NetworkBackend)
        ensures
            r == self.backend,
    {
        self.backend
    }
}

} // verus!
