//! The remote access section of the VM creation form.
use vstd::prelude::*;

use crate::access::RemoteAccess;
use crate::access::vnc::{VncBuilder, parsed_ipv4, vnc_form_after, vnc_validated};
use crate::key::Key;

verus! {

/// The remote access section: VNC only, for now.
#[derive(Debug, Clone)]
pub struct RemoteAccessBuilder {
    pub vnc: VncBuilder,
}

impl RemoteAccessBuilder {
    /// VNC enabled on 127.0.0.1 without a password.
    pub fn new() -> (r: Self)
        ensures
            r.vnc.enabled,
            r.vnc.host@ == "127.0.0.1"@,
            r.vnc.password@ == Seq::<char>::empty(),
    {
        RemoteAccessBuilder { vnc: VncBuilder::default() }
    }

    /// Checks the VNC settings and records their errors; true when there is none.
    pub fn validate(&mut self) -> (valid: bool)
        ensures
            vnc_validated(old(self).vnc, final(self).vnc, valid),
    {
        self.vnc.validate()
    }

    /// Reacts to a key; see `VncBuilder::handle_key_events`.
    pub fn handle_key_events(&mut self, key: Key) -> (to_field: bool)
        ensures
            vnc_form_after(old(self).vnc, final(self).vnc, key, to_field),
    {
        self.vnc.handle_key_events(key)
    }

    /// The remote access the section describes, if enabled.
    pub fn access(&self) -> (r: Option<RemoteAccess>)
        requires
            self.vnc.enabled ==> parsed_ipv4(self.vnc.host@) is Some,
        ensures
            r is Some <==> self.vnc.enabled,
            r matches Some(a) ==> (a matches RemoteAccess::Vnc(v) && v.host == parsed_ipv4(
                self.vnc.host@,
            )->0 && match v.password {
                Some(p) => self.vnc.password@.len() > 0 && p@ == self.vnc.password@,
                None => self.vnc.password@.len() == 0,
            }),
    {
        match self.vnc.build() {
            Some(v) => Some(RemoteAccess::Vnc(v)),
            None => None,
        }
    }
}

} // verus!
