use kudu::arch::Arch;
use kudu::distro::LinuxDistro;
use kudu::distro::debian::DebianRelease;
use kudu::distro::ubuntu::UbuntuRelease;
use kudu::key::Key;
use kudu::network::NetworkBackend;
use kudu::vm::BootOption;
use kudu::vmbuilder::advanced::{Advanced, AdvancedAction, Section as AdvancedSection};
use kudu::vmbuilder::hardware::{Hardware, Section as HardwareSection};
use kudu::vmbuilder::overview::{Overview, Section as OverviewSection};
use kudu::vmbuilder::quick::{Quick, QuickAction, Section as QuickSection};
use kudu::vmbuilder::{BuilderAction, Section as BuilderSection, VMBuilder};

#[test]
fn quick_form_defaults() {
    let q = Quick::new();
    assert_eq!(q.section, QuickSection::Name);
    assert_eq!(q.vcpu, "1");
    assert_eq!(q.memory, "512");
    assert_eq!(q.username, "kudu");
    assert_eq!(q.password, "kudu");
    assert_eq!(q.os(), LinuxDistro::Debian(DebianRelease::Trixie));
}

#[test]
fn quick_form_tab_and_backtab_cycle() {
    let mut q = Quick::new();
    let mut seen = Vec::new();
    for _ in 0..8 {
        assert_eq!(q.handle_key_events(Key::Tab), QuickAction::Done);
        seen.push(q.section);
    }
    assert_eq!(seen.last(), Some(&QuickSection::Name));
    assert_eq!(seen[0], QuickSection::Os);
    q.handle_key_events(Key::Tab);
    q.handle_key_events(Key::BackTab);
    assert_eq!(q.section, QuickSection::Name);
    q.handle_key_events(Key::Up);
    assert_eq!(q.section, QuickSection::Create);
}

#[test]
fn quick_form_changes_distribution_and_release() {
    let mut q = Quick::new();
    q.handle_key_events(Key::Tab);
    assert_eq!(q.section, QuickSection::Os);
    q.handle_key_events(Key::Left);
    assert_eq!(q.os, LinuxDistro::Ubuntu(UbuntuRelease::Resolute));
    q.handle_key_events(Key::Char('h'));
    assert_eq!(q.os, LinuxDistro::ArchLinux);
    q.handle_key_events(Key::Right);
    assert_eq!(q.os, LinuxDistro::Ubuntu(UbuntuRelease::Resolute));
    q.handle_key_events(Key::Tab);
    q.handle_key_events(Key::Right);
    assert_eq!(q.ubuntu_release, UbuntuRelease::Noble);
    q.handle_key_events(Key::Left);
    q.handle_key_events(Key::Left);
    assert_eq!(q.ubuntu_release, UbuntuRelease::Jammy);
    assert_eq!(q.handle_key_events(Key::Char('x')), QuickAction::Done);
}

#[test]
fn quick_form_create_checks_fields() {
    let mut q = Quick::new();
    q.section = QuickSection::Create;
    assert_eq!(q.handle_key_events(Key::Enter), QuickAction::Done);
    assert_eq!(q.name_error.as_deref(), Some("Field required"));
    q.name = "web".to_string();
    q.vcpu = "0".to_string();
    assert_eq!(q.handle_key_events(Key::Enter), QuickAction::Done);
    assert_eq!(q.name_error, None);
    assert_eq!(q.vcpu_error.as_deref(), Some("vcpu value can not be 0"));
    q.vcpu = "4".to_string();
    q.memory = "lots".to_string();
    assert!(!q.validate());
    assert_eq!(q.memory_error.as_deref(), Some("Memory value should be a number"));
    q.memory = "2048".to_string();
    assert_eq!(q.handle_key_events(Key::Enter), QuickAction::Create);
    assert_eq!(q.vcpu_error.as_deref(), Some("vcpu value can not be 0"));
    q.section = QuickSection::Cpu;
    assert_eq!(q.handle_key_events(Key::Char('5')), QuickAction::ToField);
}

#[test]
fn quick_form_builds_a_cloud_image_vm() {
    let mut q = Quick::new();
    q.name = "web".to_string();
    q.vcpu = "4".to_string();
    q.memory = "2048".to_string();
    let d = q.build("aarch64", "/tmp/user-data".to_string());
    assert_eq!(d.boot_option, BootOption::CloudImage);
    assert_eq!(d.name, "web");
    assert_eq!(d.vcpu, 4);
    assert_eq!(d.memory, 2048);
    assert_eq!(d.arch, Arch::Aarch64);
    assert!(d.enable_uefi);
    assert_eq!(d.cloudinit.as_deref(), Some("/tmp/user-data"));
    assert_eq!(d.networks.len(), 1);
    assert_eq!(d.networks[0].backend, NetworkBackend::User);
    assert!(d.remote_access.is_none());
    assert_eq!(Quick::arch("sparc"), Arch::X86_64);
}

#[test]
fn overview_moves_and_choices() {
    let mut o = Overview::new();
    assert!(o.handle_key_events(Key::Char('j')));
    assert!(!o.handle_key_events(Key::Down));
    assert_eq!(o.section, OverviewSection::BootOption);
    o.handle_key_events(Key::Right);
    assert_eq!(o.boot_option, BootOption::LocalFile);
    o.handle_key_events(Key::Down);
    assert_eq!(o.section, OverviewSection::LocalFile);
    assert_eq!(o.os(), None);
    o.handle_key_events(Key::Up);
    o.handle_key_events(Key::Left);
    assert_eq!(o.boot_option, BootOption::CloudImage);
    o.handle_key_events(Key::Char('j'));
    assert_eq!(o.section, OverviewSection::OS);
    o.handle_key_events(Key::Char('l'));
    assert_eq!(o.os, LinuxDistro::ArchLinux);
    o.handle_key_events(Key::Left);
    o.handle_key_events(Key::Down);
    o.handle_key_events(Key::Right);
    assert_eq!(o.debian_release, DebianRelease::Bookworm);
    assert_eq!(o.os(), Some(LinuxDistro::Debian(DebianRelease::Bookworm)));
}

#[test]
fn overview_check_reports_each_error() {
    let mut o = Overview::new();
    assert!(!o.validate(true, true));
    assert_eq!(o.name_error.as_deref(), Some("Field required"));
    o.name = "vm".to_string();
    o.cloudinit = "/nope".to_string();
    assert!(!o.validate(false, true));
    assert_eq!(o.cloudinit_error.as_deref(), Some("Cloudinit file does not exists"));
    o.boot_option = BootOption::LocalFile;
    assert!(!o.validate(true, true));
    assert_eq!(o.boot_file_error.as_deref(), Some("Field required"));
    o.boot_file = "/img.iso".to_string();
    assert!(!o.validate(true, false));
    assert_eq!(o.boot_file_error.as_deref(), Some("Boot file does not exists"));
    assert!(o.validate(true, true));
    assert_eq!(o.boot_file(), Some("/img.iso".to_string()));
    assert_eq!(o.cloudinit(), Some("/nope".to_string()));
}

#[test]
fn hardware_section_for_arch_linux() {
    let mut h = Hardware::new(Some(Arch::Aarch64));
    assert_eq!(h.arch(), Arch::Aarch64);
    assert!(!h.handle_key_events(Key::Down, None));
    assert_eq!(h.section, HardwareSection::Memory);
    h.handle_key_events(Key::Down, None);
    assert_eq!(h.section, HardwareSection::Arch);
    h.handle_key_events(Key::Right, Some(LinuxDistro::ArchLinux));
    assert_eq!(h.arch(), Arch::Aarch64);
    h.handle_key_events(Key::Right, None);
    assert_eq!(h.arch(), Arch::X86_64);
    h.vcpu = "abc".to_string();
    h.section = HardwareSection::Cpu;
    assert!(h.handle_key_events(Key::Down, None));
    assert_eq!(h.vcpu_error.as_deref(), Some("vcpu value should be a number"));
    assert_eq!(h.section, HardwareSection::Cpu);
}

#[test]
fn advanced_form_moves_and_builds() {
    let mut a = Advanced::new(Some(Arch::X86_64));
    assert_eq!(a.focused_section, AdvancedSection::Overview);
    assert_eq!(a.handle_key_events(Key::Tab, false, false), AdvancedAction::Done);
    assert_eq!(a.focused_section, AdvancedSection::Overview);
    assert_eq!(a.overview.name_error.as_deref(), Some("Field required"));
    a.overview.name = "db".to_string();
    a.handle_key_events(Key::Tab, false, false);
    assert_eq!(a.focused_section, AdvancedSection::Hardware);
    a.handle_key_events(Key::Tab, false, false);
    a.handle_key_events(Key::Tab, false, false);
    a.handle_key_events(Key::Tab, false, false);
    assert_eq!(a.focused_section, AdvancedSection::PortForwarding);
    a.handle_key_events(Key::Tab, false, false);
    a.handle_key_events(Key::Tab, false, false);
    assert_eq!(a.focused_section, AdvancedSection::Summary);
    assert!(a.can_build());
    assert_eq!(a.handle_key_events(Key::Enter, false, false), AdvancedAction::Create);
    let d = a.build();
    assert_eq!(d.name, "db");
    assert_eq!(d.vcpu, 1);
    assert_eq!(d.memory, 512);
    assert_eq!(d.networks.len(), 1);
    assert!(d.remote_access.is_some());
}

#[test]
fn advanced_form_arch_linux_forces_x86_64() {
    let mut a = Advanced::new(Some(Arch::Riscv64));
    a.overview.name = "arch".to_string();
    a.overview.os = LinuxDistro::ArchLinux;
    a.handle_key_events(Key::BackTab, false, false);
    assert_eq!(a.focused_section, AdvancedSection::Summary);
    assert_eq!(a.hardware.arch(), Arch::X86_64);
}

#[test]
fn advanced_form_adds_a_disk_and_a_rule() {
    let mut a = Advanced::new(None);
    a.focused_section = AdvancedSection::Storage;
    a.handle_key_events(Key::Char('n'), false, false);
    assert!(a.storage.new_disk_popup());
    assert_eq!(a.handle_key_events(Key::Char('3'), false, false), AdvancedAction::ToField);
    a.storage.new_disk.as_mut().unwrap().size = "30".to_string();
    a.handle_key_events(Key::Enter, false, false);
    assert!(!a.storage.new_disk_popup());
    assert_eq!(a.storage.disks().len(), 1);
    assert_eq!(a.storage.disks()[0].size, 30);
    assert_eq!(a.storage.selected, Some(0));
    a.focused_section = AdvancedSection::PortForwarding;
    a.handle_key_events(Key::Char('n'), false, false);
    assert!(a.port_forwarding.new_mapping_popup());
    {
        let f = a.port_forwarding.new_mapping.as_mut().unwrap();
        f.guest_port = "80".to_string();
        f.host_port = "8080".to_string();
    }
    a.handle_key_events(Key::Enter, false, false);
    assert!(!a.port_forwarding.new_mapping_popup());
    assert_eq!(a.networks[0].port_mappings.len(), 1);
    assert_eq!(a.networks[0].port_mappings[0].host_port, 8080);
    assert_eq!(a.port_forwarding.mappings.len(), 1);
    a.handle_key_events(Key::Char('d'), false, false);
    assert_eq!(a.networks[0].port_mappings.len(), 0);
    assert_eq!(a.port_forwarding.selected, None);
}

#[test]
fn builder_choice_and_cancel() {
    let mut b = VMBuilder::new();
    assert_eq!(b.handle_key_events(Key::Esc, None, false, false), BuilderAction::Cancel(true));
    b.handle_key_events(Key::Down, None, false, false);
    assert_eq!(b.section, BuilderSection::Advanced);
    b.handle_key_events(Key::Char('k'), None, false, false);
    assert_eq!(b.section, BuilderSection::Quick);
    b.handle_key_events(Key::Enter, None, false, false);
    assert!(b.quick.is_some());
    assert_eq!(b.handle_key_events(Key::Esc, None, false, false), BuilderAction::Done);
    assert!(b.cancel_confirmation.is_some());
    b.handle_key_events(Key::Right, None, false, false);
    assert_eq!(b.handle_key_events(Key::Enter, None, false, false), BuilderAction::Cancel(true));
    b.handle_key_events(Key::Esc, None, false, false);
    assert!(b.cancel_confirmation.is_none());
}

#[test]
fn quick_form_moves_keep_errors() {
    let mut q = Quick::new();
    q.vcpu = "0".to_string();
    q.memory = "x".to_string();
    q.section = QuickSection::Create;
    assert_eq!(q.handle_key_events(Key::Enter), QuickAction::Done);
    assert_eq!(q.vcpu_error.as_deref(), Some("vcpu value can not be 0"));
    assert_eq!(q.memory_error.as_deref(), Some("Memory value should be a number"));
    q.handle_key_events(Key::Down);
    q.handle_key_events(Key::Up);
    assert_eq!(q.section, QuickSection::Create);
    assert_eq!(q.vcpu_error.as_deref(), Some("vcpu value can not be 0"));
    assert_eq!(q.memory_error.as_deref(), Some("Memory value should be a number"));
    assert_eq!(q.name_error.as_deref(), Some("Field required"));
}
