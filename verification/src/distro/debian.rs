//! Debian cloud image releases.
use vstd::prelude::*;
use vstd::string::*;

use crate::arch::{Arch, arch_image_name};
use crate::text::{dec, to_decimal};

verus! {

/// A Debian release with a generic cloud image.
#[derive(Debug, Clone, Copy, PartialEq, Eq, Structural)]
pub enum DebianRelease {
    Trixie,
    Bookworm,
    Forky,
}

impl Default for DebianRelease {
    fn default() -> (r: Self)
        ensures
            r == DebianRelease::Trixie,
    {
        DebianRelease::Trixie
    }
}

/// The display name of a release.
pub open spec fn debian_name(r: DebianRelease) -> Seq<char> {
    match r {
        DebianRelease::Trixie => "Trixie"@,
        DebianRelease::Bookworm => "Bookworm"@,
        DebianRelease::Forky => "Forky"@,
    }
}

/// The lower-case code name of a release.
pub open spec fn debian_lower_name(r: DebianRelease) -> Seq<char> {
    match r {
        DebianRelease::Trixie => "trixie"@,
        DebianRelease::Bookworm => "bookworm"@,
        DebianRelease::Forky => "forky"@,
    }
}

/// The version number of a release.
pub open spec fn debian_number(r: DebianRelease) -> nat {
    match r {
        DebianRelease::Trixie => 13,
        DebianRelease::Bookworm => 12,
        DebianRelease::Forky => 14,
    }
}

/// The download address of the generic cloud image of release `r` for `arch`.
pub open spec fn debian_url(r: DebianRelease, arch: Arch) -> Seq<char> {
    "http://cloud.debian.org/images/cloud/"@ + debian_lower_name(r) + "/latest/debian-"@ + dec(
        debian_number(r),
    ) + "-generic-"@ + arch_image_name(arch) + ".qcow2"@
}

impl DebianRelease {
    /// The display name (`Trixie`, `Bookworm`, `Forky`).
    pub fn name(&self) -> (r: &'static str)
        ensures
            r@ == debian_name(*self),
    {
        match self {
            DebianRelease::Trixie => "Trixie",
            DebianRelease::Bookworm => "Bookworm",
            DebianRelease::Forky => "Forky",
        }
    }

    /// The lower-case code name.
    pub fn lower_name(&self) -> (r: &'static str)
        ensures
            r@ == debian_lower_name(*self),
    {
        match self {
            DebianRelease::Trixie => "trixie",
            DebianRelease::Bookworm => "bookworm",
            DebianRelease::Forky => "forky",
        }
    }

    /// The version number (13, 12, 14).
    pub fn number(&self) -> (n: u8)
        ensures
            n == debian_number(*self),
    {
        match self {
            DebianRelease::Trixie => 13,
            DebianRelease::Bookworm => 12,
            DebianRelease::Forky => 14,
        }
    }

    /// The download address of the release's generic cloud image for `arch`.
    pub fn get_url(&self, arch: Arch) -> (r: String)
        ensures
            r@ == debian_url(*self, arch),
    {
        let mut url = String::from_str("http://cloud.debian.org/images/cloud/");
        url.append(self.lower_name());
        url.append("/latest/debian-");
        let n = to_decimal(self.number() as u64);
        url.append(n.as_str());
        url.append("-generic-");
        url.append(arch.image_name());
        url.append(".qcow2");
        url
    }
}

} // verus!
