//! CPU architectures a VM can emulate.
use vstd::prelude::*;

use crate::text::str_equal;

verus! {

/// A guest CPU architecture.
#[derive(Debug, Clone, Copy, PartialEq, Eq, Hash, Structural)]
pub enum Arch {
    X86_64,
    Aarch64,
    Riscv64,
}

impl Default for Arch {
    fn default() -> (r: Self)
        ensures
            r == Arch::X86_64,
    {
        Arch::X86_64
    }
}

/// The name an architecture is displayed under.
pub open spec fn arch_name(a: Arch) -> Seq<char> {
    match a {
        Arch::X86_64 => "X86_64"@,
        Arch::Aarch64 => "Aarch64"@,
        Arch::Riscv64 => "Riscv64"@,
    }
}

/// The lower-case name, as used in file names and by the host's `ARCH` constant.
pub open spec fn arch_lower_name(a: Arch) -> Seq<char> {
    match a {
        Arch::X86_64 => "x86_64"@,
        Arch::Aarch64 => "aarch64"@,
        Arch::Riscv64 => "riscv64"@,
    }
}

/// The architecture whose lower-case name is `s`, if any.
pub open spec fn arch_from_name(s: Seq<char>) -> Option<Arch> {
    if s == "x86_64"@ {
        Some(Arch::X86_64)
    } else if s == "aarch64"@ {
        Some(Arch::Aarch64)
    } else if s == "riscv64"@ {
        Some(Arch::Riscv64)
    } else {
        None
    }
}

/// The architecture name that cloud image file names use.
pub open spec fn arch_image_name(a: Arch) -> Seq<char> {
    match a {
        Arch::X86_64 => "amd64"@,
        Arch::Aarch64 => "arm64"@,
        Arch::Riscv64 => "riscv64"@,
    }
}

impl Arch {
    /// The name cloud image file names use (`amd64`, `arm64`, `riscv64`).
    pub fn image_name(&self) -> (r: &'static str)
        ensures
            r@ == arch_image_name(*self),
    {
        match self {
            Arch::X86_64 => "amd64",
            Arch::Aarch64 => "arm64",
            Arch::Riscv64 => "riscv64",
        }
    }

    /// The display name (`X86_64`, `Aarch64`, `Riscv64`).
    pub fn name(&self) -> (r: &'static str)
        ensures
            r@ == arch_name(*self),
    {
        match self {
            Arch::X86_64 => "X86_64",
            Arch::Aarch64 => "Aarch64",
            Arch::Riscv64 => "Riscv64",
        }
    }

    /// The lower-case name (`x86_64`, `aarch64`, `riscv64`).
    pub fn lower_name(&self) -> (r: &'static str)
        ensures
            r@ == arch_lower_name(*self),
    {
        match self {
            Arch::X86_64 => "x86_64",
            Arch::Aarch64 => "aarch64",
            Arch::Riscv64 => "riscv64",
        }
    }

    /// Reads an architecture from its lower-case name; any other text gives
    /// the error `"Unknown"`.
    pub fn try_from(value: &str) -> (r: Result<Arch, &'static str>)
        ensures
            match r {
                Ok(a) => arch_from_name(value@) == Some(a),
                Err(e) => arch_from_name(value@) is None && e@ == "Unknown"@,
            },
    {
        if str_equal(value, "x86_64") {
            Ok(Arch::X86_64)
        } else if str_equal(value, "aarch64") {
            Ok(Arch::Aarch64)
        } else if str_equal(value, "riscv64") {
            Ok(Arch::Riscv64)
        } else {
            Err("Unknown")
        }
    }
}

/// Reading the lower-case name of an architecture gives the architecture back.
pub proof fn lemma_arch_name_roundtrip(a: Arch)
    ensures
        arch_from_name(arch_lower_name(a)) == Some(a),
{
    reveal_strlit("x86_64");
    reveal_strlit("aarch64");
    reveal_strlit("riscv64");
    assert("x86_64"@[0] == 'x');
    assert("aarch64"@[0] == 'a');
    assert("riscv64"@[0] == 'r');
}

} // verus!
