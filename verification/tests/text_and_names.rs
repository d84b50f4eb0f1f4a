use kudu::arch::Arch;
use kudu::distro::LinuxDistro;
use kudu::distro::debian::DebianRelease;
use kudu::distro::ubuntu::UbuntuRelease;
use kudu::firmware::{FirmwareError, get_uefi_file_path, uefi_package};
use kudu::text::{join_strings, parse_unsigned_str, to_decimal, to_hex_padded};

#[test]
fn decimal_rendering() {
    assert_eq!(to_decimal(0), "0");
    assert_eq!(to_decimal(7), "7");
    assert_eq!(to_decimal(1234), "1234");
    assert_eq!(to_decimal(u64::MAX), "18446744073709551615");
}

#[test]
fn hex_rendering() {
    assert_eq!(to_hex_padded(0xab, 4, false), "00ab");
    assert_eq!(to_hex_padded(0xdeadbeef, 8, true), "DEADBEEF");
    assert_eq!(to_hex_padded(0, 2, true), "00");
}

#[test]
fn unsigned_parsing_follows_str_parse() {
    assert_eq!(parse_unsigned_str("42", 65535), Some(42));
    assert_eq!(parse_unsigned_str("+42", 65535), Some(42));
    assert_eq!(parse_unsigned_str("", 65535), None);
    assert_eq!(parse_unsigned_str("+", 65535), None);
    assert_eq!(parse_unsigned_str("-1", 65535), None);
    assert_eq!(parse_unsigned_str("65536", 65535), None);
    assert_eq!(parse_unsigned_str("65535", 65535), Some(65535));
    assert_eq!(parse_unsigned_str(" 1", 65535), None);
    for n in [0u64, 1, 9, 10, 99, 100, 65535] {
        assert_eq!(parse_unsigned_str(&to_decimal(n), 65535), Some(n));
    }
}

#[test]
fn strings_joined_with_separator() {
    let parts = vec!["a".to_string(), "bc".to_string(), "d".to_string()];
    assert_eq!(join_strings(&parts, ","), "a,bc,d");
    assert_eq!(join_strings(&Vec::new(), ","), "");
}

#[test]
fn arch_names_roundtrip() {
    for a in [Arch::X86_64, Arch::Aarch64, Arch::Riscv64] {
        assert_eq!(Arch::try_from(a.lower_name()), Ok(a));
    }
    assert_eq!(Arch::try_from("x86_64"), Ok(Arch::X86_64));
    assert_eq!(Arch::try_from("aarch64"), Ok(Arch::Aarch64));
    assert_eq!(Arch::try_from("riscv64"), Ok(Arch::Riscv64));
    assert_eq!(Arch::try_from("arm"), Err("Unknown"));
}

#[test]
fn cloud_image_urls() {
    assert_eq!(
        DebianRelease::Trixie.get_url(Arch::X86_64),
        "http://cloud.debian.org/images/cloud/trixie/latest/debian-13-generic-amd64.qcow2"
    );
    assert_eq!(
        DebianRelease::Bookworm.get_url(Arch::Aarch64),
        "http://cloud.debian.org/images/cloud/bookworm/latest/debian-12-generic-arm64.qcow2"
    );
    assert_eq!(
        UbuntuRelease::Noble.get_url(Arch::X86_64),
        "https://cloud-images.ubuntu.com/noble/current/noble-server-cloudimg-amd64.img"
    );
}

#[test]
fn cloud_image_paths() {
    let d = LinuxDistro::Debian(DebianRelease::Trixie);
    assert_eq!(
        d.get_file_path("/var/lib/kudu", Arch::X86_64),
        "/var/lib/kudu/storage/debian-trixie-x86_64.qcow2"
    );
    assert_eq!(
        LinuxDistro::ArchLinux.get_file_path("/var/lib/kudu/", Arch::X86_64),
        "/var/lib/kudu/storage/arch.qcow2"
    );
}

#[test]
fn os_release_identifier() {
    let content = "NAME=\"Debian GNU/Linux\"\nID=debian\nVERSION_ID=13\n";
    assert_eq!(LinuxDistro::parse_os_release(content), Some("debian".to_string()));
    assert_eq!(LinuxDistro::parse_os_release("NAME=x\r\nID=arch\r\n"), Some("arch".to_string()));
    assert_eq!(LinuxDistro::parse_os_release("NAME=x\n"), None);
    assert_eq!(LinuxDistro::parse_os_release(""), None);
}

#[test]
fn download_progress_percent() {
    assert_eq!(LinuxDistro::download_progress(50, 200), Some(25));
    assert_eq!(LinuxDistro::download_progress(200, 200), Some(100));
    assert_eq!(LinuxDistro::download_progress(10, 0), None);
}

#[test]
fn uefi_packages_match_the_readme_table() {
    assert_eq!(uefi_package(Some("debian"), Arch::X86_64), Ok("ovmf"));
    assert_eq!(uefi_package(Some("ubuntu"), Arch::Aarch64), Ok("qemu-efi-aarch64"));
    assert_eq!(uefi_package(Some("debian"), Arch::Riscv64), Ok("qemu-efi-riscv64"));
    assert_eq!(uefi_package(Some("arch"), Arch::X86_64), Ok("edk2-ovmf"));
    assert_eq!(uefi_package(Some("arch"), Arch::Aarch64), Ok("edk2-aarch64"));
    assert_eq!(uefi_package(Some("arch"), Arch::Riscv64), Ok("edk2-riscv64"));
    assert_eq!(uefi_package(Some("fedora"), Arch::X86_64), Ok("edk2-ovmf"));
    assert_eq!(uefi_package(Some("fedora"), Arch::Aarch64), Ok("edk2-aarch64"));
    assert_eq!(uefi_package(Some("fedora"), Arch::Riscv64), Err(FirmwareError::UnsupportedArch));
    assert_eq!(uefi_package(Some("gentoo"), Arch::X86_64), Err(FirmwareError::UnsupportedOs));
    assert_eq!(uefi_package(None, Arch::X86_64), Err(FirmwareError::UnrecognizedOs));
}

#[test]
fn uefi_files_for_debian_x86_64() {
    let (code, vars) = get_uefi_file_path(Some("debian"), Arch::X86_64).unwrap();
    assert_eq!(code, "/usr/share/OVMF/OVMF_CODE_4M.fd");
    assert_eq!(vars, "/usr/share/OVMF/OVMF_VARS_4M.fd");
    assert!(get_uefi_file_path(None, Arch::X86_64).is_err());
}
