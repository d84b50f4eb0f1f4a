//! UEFI firmware files and packages, by host distribution and guest architecture.
use vstd::prelude::*;
use vstd::string::*;

use crate::arch::Arch;
use crate::text::str_equal;

verus! {

/// Why no UEFI firmware could be chosen.
#[derive(Debug, Clone, Copy, PartialEq, Eq, Structural)]
pub enum FirmwareError {
    /// The host's operating system could not be read.
    UnrecognizedOs,
    /// The host's operating system is not one the firmware layout is known for.
    UnsupportedOs,
    /// The host's distribution ships no firmware for the architecture.
    UnsupportedArch,
}

/// The host distribution families whose firmware layout is known.
#[derive(Debug, Clone, Copy, PartialEq, Eq, Structural)]
pub enum OsFamily {
    /// `ubuntu` and `debian`.
    Debian,
    /// `arch`.
    Arch,
    /// `fedora` and `rhel`.
    Fedora,
}

/// The family of the host whose os-release identifier is `id`.
pub open spec fn os_family(id: Seq<char>) -> Option<OsFamily> {
    if id == "ubuntu"@ || id == "debian"@ {
        Some(OsFamily::Debian)
    } else if id == "arch"@ {
        Some(OsFamily::Arch)
    } else if id == "fedora"@ || id == "rhel"@ {
        Some(OsFamily::Fedora)
    } else {
        None
    }
}

/// The characters of an optional string.
pub open spec fn opt_str_view(s: Option<&str>) -> Option<Seq<char>> {
    match s {
        Some(x) => Some(x@),
        None => None,
    }
}

/// The UEFI code and variable-store files for `arch` on a host of `family`.
pub open spec fn family_uefi_paths(family: OsFamily, arch: Arch) -> Result<
    (Seq<char>, Seq<char>),
    FirmwareError,
> {
    match family {
        OsFamily::Debian => match arch {
            Arch::X86_64 => Ok(
                ("/usr/share/OVMF/OVMF_CODE_4M.fd"@, "/usr/share/OVMF/OVMF_VARS_4M.fd"@),
            ),
            Arch::Aarch64 => Ok(
                ("/usr/share/AAVMF/AAVMF_CODE.fd"@, "/usr/share/AAVMF/AAVMF_VARS.fd"@),
            ),
            Arch::Riscv64 => Ok(
                (
                    "/usr/share/qemu-efi-riscv64/RISCV_VIRT_CODE.fd"@,
                    "/usr/share/qemu-efi-riscv64/RISCV_VIRT_VARS.fd"@,
                ),
            ),
        },
        OsFamily::Arch => match arch {
            Arch::X86_64 => Ok(
                ("/usr/share/edk2/x64/OVMF.4m.fd"@, "/usr/share/edk2/x64/OVMF_VARS.4m.fd"@),
            ),
            Arch::Aarch64 => Ok(
                ("/usr/share/edk2/aarch64/QEMU_EFI.fd"@, "/usr/share/edk2/aarch64/QEMU_VARS.fd"@),
            ),
            Arch::Riscv64 => Ok(
                (
                    "/usr/share/edk2/riscv64/RISCV_VIRT_CODE.fd"@,
                    "/usr/share/edk2/riscv64/RISCV_VIRT_VARS.fd"@,
                ),
            ),
        },
        OsFamily::Fedora => match arch {
            Arch::X86_64 => Ok(
                ("/usr/share/edk2/ovmf/OVMF_CODE.fd"@, "/usr/share/edk2/ovmf/OVMF_VARS.fd"@),
            ),
            Arch::Aarch64 => Ok(
                ("/usr/share/edk2/aarch64/QEMU_EFI.fd"@, "/usr/share/edk2/aarch64/QEMU_VARS.fd"@),
            ),
            Arch::Riscv64 => Err(FirmwareError::UnsupportedArch),
        },
    }
}

/// The UEFI files for `arch` on a host whose os-release identifier is `os`
/// (none when it could not be read).
pub open spec fn uefi_paths(os: Option<Seq<char>>, arch: Arch) -> Result<
    (Seq<char>, Seq<char>),
    FirmwareError,
> {
    match os {
        None => Err(FirmwareError::UnrecognizedOs),
        Some(id) => match os_family(id) {
            None => Err(FirmwareError::UnsupportedOs),
            Some(f) => family_uefi_paths(f, arch),
        },
    }
}

/// The package that ships UEFI firmware for `arch` on a host of `family`.
pub open spec fn family_uefi_package(family: OsFamily, arch: Arch) -> Result<
    Seq<char>,
    FirmwareError,
> {
    match family {
        OsFamily::Debian => match arch {
            Arch::X86_64 => Ok("ovmf"@),
            Arch::Aarch64 => Ok("qemu-efi-aarch64"@),
            Arch::Riscv64 => Ok("qemu-efi-riscv64"@),
        },
        OsFamily::Arch => match arch {
            Arch::X86_64 => Ok("edk2-ovmf"@),
            Arch::Aarch64 => Ok("edk2-aarch64"@),
            Arch::Riscv64 => Ok("edk2-riscv64"@),
        },
        OsFamily::Fedora => match arch {
            Arch::X86_64 => Ok("edk2-ovmf"@),
            Arch::Aarch64 => Ok("edk2-aarch64"@),
            Arch::Riscv64 => Err(FirmwareError::UnsupportedArch),
        },
    }
}

/// The UEFI package for `arch` on a host whose os-release identifier is `os`.
pub open spec fn uefi_package_name(os: Option<Seq<char>>, arch: Arch) -> Result<
    Seq<char>,
    FirmwareError,
> {
    match os {
        None => Err(FirmwareError::UnrecognizedOs),
        Some(id) => match os_family(id) {
            None => Err(FirmwareError::UnsupportedOs),
            Some(f) => family_uefi_package(f, arch),
        },
    }
}

impl FirmwareError {
    /// The message the error is reported with.
    pub fn message(&self) -> (r: &'static str)
        ensures
            r@ == match *self {
                FirmwareError::UnrecognizedOs => "Can not recognize the OS"@,
                FirmwareError::UnsupportedOs => "Unsupported OS"@,
                FirmwareError::UnsupportedArch => "Unsupported Arch"@,
            },
    {
        match self {
            FirmwareError::UnrecognizedOs => "Can not recognize the OS",
            FirmwareError::UnsupportedOs => "Unsupported OS",
            FirmwareError::UnsupportedArch => "Unsupported Arch",
        }
    }
}

/// The family of the host whose os-release identifier is `id`.
pub fn family_of(id: &str) -> (r: Option<OsFamily>)
    ensures
        r == os_family(id@),
{
    if str_equal(id, "ubuntu") || str_equal(id, "debian") {
        Some(OsFamily::Debian)
    } else if str_equal(id, "arch") {
        Some(OsFamily::Arch)
    } else if str_equal(id, "fedora") || str_equal(id, "rhel") {
        Some(OsFamily::Fedora)
    } else {
        None
    }
}

fn pair(code: &str, vars: &str) -> (r: (String, String))
    ensures
        r.0@ == code@,
        r.1@ == vars@,
{
    (String::from_str(code), String::from_str(vars))
}

/// The UEFI code and variable-store files for `arch` on a host whose
/// os-release identifier is `os` (`None` when it could not be read).
pub fn get_uefi_file_path(os: Option<&str>, arch: Arch) -> (r: Result<
    (String, String),
    FirmwareError,
>)
    ensures
        match r {
            Ok((code, vars)) => uefi_paths(opt_str_view(os), arch) == Ok::<
                (Seq<char>, Seq<char>),
                FirmwareError,
            >((code@, vars@)),
            Err(e) => uefi_paths(opt_str_view(os), arch) == Err::<
                (Seq<char>, Seq<char>),
                FirmwareError,
            >(e),
        },
{
    let id = match os {
        Some(id) => id,
        None => {
            return Err(FirmwareError::UnrecognizedOs);
        },
    };
    match family_of(id) {
        Some(OsFamily::Debian) => match arch {
            Arch::X86_64 => Ok(
                pair("/usr/share/OVMF/OVMF_CODE_4M.fd", "/usr/share/OVMF/OVMF_VARS_4M.fd"),
            ),
            Arch::Aarch64 => Ok(
                pair("/usr/share/AAVMF/AAVMF_CODE.fd", "/usr/share/AAVMF/AAVMF_VARS.fd"),
            ),
            Arch::Riscv64 => Ok(
                pair(
                    "/usr/share/qemu-efi-riscv64/RISCV_VIRT_CODE.fd",
                    "/usr/share/qemu-efi-riscv64/RISCV_VIRT_VARS.fd",
                ),
            ),
        },
        Some(OsFamily::Arch) => match arch {
            Arch::X86_64 => Ok(
                pair("/usr/share/edk2/x64/OVMF.4m.fd", "/usr/share/edk2/x64/OVMF_VARS.4m.fd"),
            ),
            Arch::Aarch64 => Ok(
                pair("/usr/share/edk2/aarch64/QEMU_EFI.fd", "/usr/share/edk2/aarch64/QEMU_VARS.fd"),
            ),
            Arch::Riscv64 => Ok(
                pair(
                    "/usr/share/edk2/riscv64/RISCV_VIRT_CODE.fd",
                    "/usr/share/edk2/riscv64/RISCV_VIRT_VARS.fd",
                ),
            ),
        },
        Some(OsFamily::Fedora) => match arch {
            Arch::X86_64 => Ok(
                pair("/usr/share/edk2/ovmf/OVMF_CODE.fd", "/usr/share/edk2/ovmf/OVMF_VARS.fd"),
            ),
            Arch::Aarch64 => Ok(
                pair("/usr/share/edk2/aarch64/QEMU_EFI.fd", "/usr/share/edk2/aarch64/QEMU_VARS.fd"),
            ),
            Arch::Riscv64 => Err(FirmwareError::UnsupportedArch),
        },
        None => Err(FirmwareError::UnsupportedOs),
    }
}

/// The package that ships UEFI firmware for `arch` on a host whose os-release
/// identifier is `os` (`None` when it could not be read).
pub fn uefi_package(os: Option<&str>, arch: Arch) -> (r: Result<&'static str, FirmwareError>)
    ensures
        match r {
            Ok(p) => uefi_package_name(opt_str_view(os), arch) == Ok::<Seq<char>, FirmwareError>(
                p@,
            ),
            Err(e) => uefi_package_name(opt_str_view(os), arch) == Err::<Seq<char>, FirmwareError>(
                e,
            ),
        },
{
    let id = match os {
        Some(id) => id,
        None => {
            return Err(FirmwareError::UnrecognizedOs);
        },
    };
    match family_of(id) {
        Some(OsFamily::Debian) => match arch {
            Arch::X86_64 => Ok("ovmf"),
            Arch::Aarch64 => Ok("qemu-efi-aarch64"),
            Arch::Riscv64 => Ok("qemu-efi-riscv64"),
        },
        Some(OsFamily::Arch) => match arch {
            Arch::X86_64 => Ok("edk2-ovmf"),
            Arch::Aarch64 => Ok("edk2-aarch64"),
            Arch::Riscv64 => Ok("edk2-riscv64"),
        },
        Some(OsFamily::Fedora) => match arch {
            Arch::X86_64 => Ok("edk2-ovmf"),
            Arch::Aarch64 => Ok("edk2-aarch64"),
            Arch::Riscv64 => Err(FirmwareError::UnsupportedArch),
        },
        None => Err(FirmwareError::UnsupportedOs),
    }
}

/// `t` occurs in `s`.
pub open spec fn contains_text(s: Seq<char>, t: Seq<char>) -> bool {
    exists|i: int| 0 <= i && i + t.len() <= s.len() && #[trigger] s.subrange(i, i + t.len()) == t
}

/// `a` and `b` name files of one directory: they share everything up to and
/// including a `/` after which neither has another `/`.
pub open spec fn in_same_dir(a: Seq<char>, b: Seq<char>) -> bool {
    exists|k: int|
        0 < k <= a.len() && k <= b.len() && #[trigger] a.subrange(0, k) == b.subrange(0, k) && a[k
            - 1] == '/' && (forall|j: int| k <= j < a.len() ==> a[j] != '/') && (forall|j: int|
            k <= j < b.len() ==> b[j] != '/')
}

/// What a pair of UEFI files must be: the firmware code first, then the
/// variable store beside it. The variable store is the file whose name says
/// `VARS`; the code file's path never does.
pub open spec fn code_then_vars(code: Seq<char>, vars: Seq<char>) -> bool {
    &&& contains_text(vars, "VARS"@)
    &&& !contains_text(code, "VARS"@)
    &&& in_same_dir(code, vars)
}

proof fn lemma_code_then_vars(c: Seq<char>, v: Seq<char>, at: int, k: int)
    requires
        0 <= at && at + 4 <= v.len(),
        v.subrange(at, at + 4) == "VARS"@,
        !contains_text(c, "VARS"@),
        0 < k <= c.len() && k <= v.len(),
        c.subrange(0, k) == v.subrange(0, k),
        c[k - 1] == '/',
        forall|j: int| k <= j < c.len() ==> c[j] != '/',
        forall|j: int| k <= j < v.len() ==> v[j] != '/',
    ensures
        code_then_vars(c, v),
{
    reveal_strlit("VARS");
    assert(v.subrange(at, at + "VARS"@.len()) == "VARS"@);
}

proof fn lemma_debian_files(arch: Arch)
    ensures
        family_uefi_paths(OsFamily::Debian, arch) matches Ok((c, v)) ==> code_then_vars(c, v),
{
    reveal_strlit("VARS");
    match arch {
        Arch::X86_64 => {
            reveal_strlit("/usr/share/OVMF/OVMF_CODE_4M.fd");
            reveal_strlit("/usr/share/OVMF/OVMF_VARS_4M.fd");
            let c = "/usr/share/OVMF/OVMF_CODE_4M.fd"@;
            let v = "/usr/share/OVMF/OVMF_VARS_4M.fd"@;
            if contains_text(c, "VARS"@) {
                let i = choose|i: int| 0 <= i && i + 4 <= c.len() && #[trigger] c.subrange(i, i + 4) == "VARS"@;
                assert(c.subrange(i, i + 4)[0] == 'V' && c.subrange(i, i + 4)[1] == 'A');
                assert(c.subrange(i, i + 4)[2] == 'R' && c.subrange(i, i + 4)[3] == 'S');
                assert(c[i] == 'V' && c[i + 1] == 'A' && c[i + 2] == 'R' && c[i + 3] == 'S');
            }
            assert(v.subrange(21, 25) =~= "VARS"@);
            assert(c.subrange(0, 16) =~= v.subrange(0, 16));
            lemma_code_then_vars(c, v, 21, 16);
        },
        Arch::Aarch64 => {
            reveal_strlit("/usr/share/AAVMF/AAVMF_CODE.fd");
            reveal_strlit("/usr/share/AAVMF/AAVMF_VARS.fd");
            let c = "/usr/share/AAVMF/AAVMF_CODE.fd"@;
            let v = "/usr/share/AAVMF/AAVMF_VARS.fd"@;
            if contains_text(c, "VARS"@) {
                let i = choose|i: int| 0 <= i && i + 4 <= c.len() && #[trigger] c.subrange(i, i + 4) == "VARS"@;
                assert(c.subrange(i, i + 4)[0] == 'V' && c.subrange(i, i + 4)[1] == 'A');
                assert(c.subrange(i, i + 4)[2] == 'R' && c.subrange(i, i + 4)[3] == 'S');
                assert(c[i] == 'V' && c[i + 1] == 'A' && c[i + 2] == 'R' && c[i + 3] == 'S');
            }
            assert(v.subrange(23, 27) =~= "VARS"@);
            assert(c.subrange(0, 17) =~= v.subrange(0, 17));
            lemma_code_then_vars(c, v, 23, 17);
        },
        Arch::Riscv64 => {
            reveal_strlit("/usr/share/qemu-efi-riscv64/RISCV_VIRT_CODE.fd");
            reveal_strlit("/usr/share/qemu-efi-riscv64/RISCV_VIRT_VARS.fd");
            let c = "/usr/share/qemu-efi-riscv64/RISCV_VIRT_CODE.fd"@;
            let v = "/usr/share/qemu-efi-riscv64/RISCV_VIRT_VARS.fd"@;
            if contains_text(c, "VARS"@) {
                let i = choose|i: int| 0 <= i && i + 4 <= c.len() && #[trigger] c.subrange(i, i + 4) == "VARS"@;
                assert(c.subrange(i, i + 4)[0] == 'V' && c.subrange(i, i + 4)[1] == 'A');
                assert(c.subrange(i, i + 4)[2] == 'R' && c.subrange(i, i + 4)[3] == 'S');
                assert(c[i] == 'V' && c[i + 1] == 'A' && c[i + 2] == 'R' && c[i + 3] == 'S');
            }
            assert(v.subrange(39, 43) =~= "VARS"@);
            assert(c.subrange(0, 28) =~= v.subrange(0, 28));
            lemma_code_then_vars(c, v, 39, 28);
        },
    }
}

proof fn lemma_arch_files(arch: Arch)
    ensures
        family_uefi_paths(OsFamily::Arch, arch) matches Ok((c, v)) ==> code_then_vars(c, v),
{
    reveal_strlit("VARS");
    match arch {
        Arch::X86_64 => {
            reveal_strlit("/usr/share/edk2/x64/OVMF.4m.fd");
            reveal_strlit("/usr/share/edk2/x64/OVMF_VARS.4m.fd");
            let c = "/usr/share/edk2/x64/OVMF.4m.fd"@;
            let v = "/usr/share/edk2/x64/OVMF_VARS.4m.fd"@;
            if contains_text(c, "VARS"@) {
                let i = choose|i: int| 0 <= i && i + 4 <= c.len() && #[trigger] c.subrange(i, i + 4) == "VARS"@;
                assert(c.subrange(i, i + 4)[0] == 'V' && c.subrange(i, i + 4)[1] == 'A');
                assert(c.subrange(i, i + 4)[2] == 'R' && c.subrange(i, i + 4)[3] == 'S');
                assert(c[i] == 'V' && c[i + 1] == 'A' && c[i + 2] == 'R' && c[i + 3] == 'S');
            }
            assert(v.subrange(25, 29) =~= "VARS"@);
            assert(c.subrange(0, 20) =~= v.subrange(0, 20));
            lemma_code_then_vars(c, v, 25, 20);
        },
        Arch::Aarch64 => {
            reveal_strlit("/usr/share/edk2/aarch64/QEMU_EFI.fd");
            reveal_strlit("/usr/share/edk2/aarch64/QEMU_VARS.fd");
            let c = "/usr/share/edk2/aarch64/QEMU_EFI.fd"@;
            let v = "/usr/share/edk2/aarch64/QEMU_VARS.fd"@;
            if contains_text(c, "VARS"@) {
                let i = choose|i: int| 0 <= i && i + 4 <= c.len() && #[trigger] c.subrange(i, i + 4) == "VARS"@;
                assert(c.subrange(i, i + 4)[0] == 'V' && c.subrange(i, i + 4)[1] == 'A');
                assert(c.subrange(i, i + 4)[2] == 'R' && c.subrange(i, i + 4)[3] == 'S');
                assert(c[i] == 'V' && c[i + 1] == 'A' && c[i + 2] == 'R' && c[i + 3] == 'S');
            }
            assert(v.subrange(29, 33) =~= "VARS"@);
            assert(c.subrange(0, 24) =~= v.subrange(0, 24));
            lemma_code_then_vars(c, v, 29, 24);
        },
        Arch::Riscv64 => {
            reveal_strlit("/usr/share/edk2/riscv64/RISCV_VIRT_CODE.fd");
            reveal_strlit("/usr/share/edk2/riscv64/RISCV_VIRT_VARS.fd");
            let c = "/usr/share/edk2/riscv64/RISCV_VIRT_CODE.fd"@;
            let v = "/usr/share/edk2/riscv64/RISCV_VIRT_VARS.fd"@;
            if contains_text(c, "VARS"@) {
                let i = choose|i: int| 0 <= i && i + 4 <= c.len() && #[trigger] c.subrange(i, i + 4) == "VARS"@;
                assert(c.subrange(i, i + 4)[0] == 'V' && c.subrange(i, i + 4)[1] == 'A');
                assert(c.subrange(i, i + 4)[2] == 'R' && c.subrange(i, i + 4)[3] == 'S');
                assert(c[i] == 'V' && c[i + 1] == 'A' && c[i + 2] == 'R' && c[i + 3] == 'S');
            }
            assert(v.subrange(35, 39) =~= "VARS"@);
            assert(c.subrange(0, 24) =~= v.subrange(0, 24));
            lemma_code_then_vars(c, v, 35, 24);
        },
    }
}

proof fn lemma_fedora_files(arch: Arch)
    ensures
        family_uefi_paths(OsFamily::Fedora, arch) matches Ok((c, v)) ==> code_then_vars(c, v),
{
    reveal_strlit("VARS");
    match arch {
        Arch::X86_64 => {
            reveal_strlit("/usr/share/edk2/ovmf/OVMF_CODE.fd");
            reveal_strlit("/usr/share/edk2/ovmf/OVMF_VARS.fd");
            let c = "/usr/share/edk2/ovmf/OVMF_CODE.fd"@;
            let v = "/usr/share/edk2/ovmf/OVMF_VARS.fd"@;
            if contains_text(c, "VARS"@) {
                let i = choose|i: int| 0 <= i && i + 4 <= c.len() && #[trigger] c.subrange(i, i + 4) == "VARS"@;
                assert(c.subrange(i, i + 4)[0] == 'V' && c.subrange(i, i + 4)[1] == 'A');
                assert(c.subrange(i, i + 4)[2] == 'R' && c.subrange(i, i + 4)[3] == 'S');
                assert(c[i] == 'V' && c[i + 1] == 'A' && c[i + 2] == 'R' && c[i + 3] == 'S');
            }
            assert(v.subrange(26, 30) =~= "VARS"@);
            assert(c.subrange(0, 21) =~= v.subrange(0, 21));
            lemma_code_then_vars(c, v, 26, 21);
        },
        Arch::Aarch64 => {
            reveal_strlit("/usr/share/edk2/aarch64/QEMU_EFI.fd");
            reveal_strlit("/usr/share/edk2/aarch64/QEMU_VARS.fd");
            let c = "/usr/share/edk2/aarch64/QEMU_EFI.fd"@;
            let v = "/usr/share/edk2/aarch64/QEMU_VARS.fd"@;
            if contains_text(c, "VARS"@) {
                let i = choose|i: int| 0 <= i && i + 4 <= c.len() && #[trigger] c.subrange(i, i + 4) == "VARS"@;
                assert(c.subrange(i, i + 4)[0] == 'V' && c.subrange(i, i + 4)[1] == 'A');
                assert(c.subrange(i, i + 4)[2] == 'R' && c.subrange(i, i + 4)[3] == 'S');
                assert(c[i] == 'V' && c[i + 1] == 'A' && c[i + 2] == 'R' && c[i + 3] == 'S');
            }
            assert(v.subrange(29, 33) =~= "VARS"@);
            assert(c.subrange(0, 24) =~= v.subrange(0, 24));
            lemma_code_then_vars(c, v, 29, 24);
        },
        _ => {},
    }
}

/// Of the two UEFI files found for any host and architecture, the first is
/// the firmware code and the second its variable store, in the same
/// directory: the store's name says `VARS` and the code's path does not.
pub proof fn lemma_uefi_code_then_vars(os: Option<Seq<char>>, arch: Arch)
    ensures
        uefi_paths(os, arch) matches Ok((c, v)) ==> code_then_vars(c, v),
{
    match os {
        Some(id) => match os_family(id) {
            Some(f) => match f {
                OsFamily::Debian => lemma_debian_files(arch),
                OsFamily::Arch => lemma_arch_files(arch),
                OsFamily::Fedora => lemma_fedora_files(arch),
            },
            None => {},
        },
        None => {},
    }
}

} // verus!
