//! Ubuntu cloud image releases.
use vstd::prelude::*;
use vstd::string::*;

use crate::arch::{Arch, arch_image_name};

verus! {

/// An Ubuntu release with a server cloud image.
#[derive(Debug, Clone, Copy, PartialEq, Eq, Structural)]
pub enum UbuntuRelease {
    Resolute,
    Noble,
    Jammy,
}

impl Default for UbuntuRelease {
    fn default() -> (r: Self)
        ensures
            r == UbuntuRelease::Resolute,
    {
        UbuntuRelease::Resolute
    }
}

/// The display name of a release.
pub open spec fn ubuntu_name(r: UbuntuRelease) -> Seq<char> {
    match r {
        UbuntuRelease::Resolute => "Resolute"@,
        UbuntuRelease::Noble => "Noble"@,
        UbuntuRelease::Jammy => "Jammy"@,
    }
}

/// The lower-case code name of a release.
pub open spec fn ubuntu_lower_name(r: UbuntuRelease) -> Seq<char> {
    match r {
        UbuntuRelease::Resolute => "resolute"@,
        UbuntuRelease::Noble => "noble"@,
        UbuntuRelease::Jammy => "jammy"@,
    }
}

/// The download address of the server cloud image of release `r` for `arch`.
pub open spec fn ubuntu_url(r: UbuntuRelease, arch: Arch) -> Seq<char> {
    "https://cloud-images.ubuntu.com/"@ + ubuntu_lower_name(r) + "/current/"@ + ubuntu_lower_name(
        r,
    ) + "-server-cloudimg-"@ + arch_image_name(arch) + ".img"@
}

impl UbuntuRelease {
    /// The display name (`Resolute`, `Noble`, `Jammy`).
    pub fn name(&self) -> (r: &'static str)
        ensures
            r@ == ubuntu_name(*self),
    {
        match self {
            UbuntuRelease::Resolute => "Resolute",
            UbuntuRelease::Noble => "Noble",
            UbuntuRelease::Jammy => "Jammy",
        }
    }

    /// The lower-case code name.
    pub fn lower_name(&self) -> (r: &'static str)
        ensures
            r@ == ubuntu_lower_name(*self),
    {
        match self {
            UbuntuRelease::Resolute => "resolute",
            UbuntuRelease::Noble => "noble",
            UbuntuRelease::Jammy => "jammy",
        }
    }

    /// The download address of the release's server cloud image for `arch`.
    pub fn get_url(&self, arch: Arch) -> (r: String)
        ensures
            r@ == ubuntu_url(*self, arch),
    {
        let mut url = String::from_str("https://cloud-images.ubuntu.com/");
        url.append(self.lower_name());
        url.append("/current/");
        url.append(self.lower_name());
        url.append("-server-cloudimg-");
        url.append(arch.image_name());
        url.append(".img");
        url
    }
}

} // verus!
