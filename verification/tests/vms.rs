use kudu::access::RemoteAccess;
use kudu::access::vnc::{Ipv4, VNC};
use kudu::arch::Arch;
use kudu::distro::LinuxDistro;
use kudu::key::Key;
use kudu::network::{Network, NetworkBackend, Nic};
use kudu::storage::{Disk, Drive, Format, Interface, Media};
use kudu::vm::{BootOption, VM, get_kudu_data_dir, get_kudu_run_dir};
use kudu::vmbuilder::VMBuildData;
use kudu::vmedit::{EditAction, EditVM, HardwareSection, Section};

fn drive(path: &str, interface: Interface) -> Drive {
    Drive { path: path.to_string(), interface, media: Media::Disk, format: Format::Qcow2, read_only: false, unit: None, size: Some(5) }
}

fn vm_with(drives: Vec<Drive>, remote_access: Option<RemoteAccess>) -> VM {
    VM {
        id: "1234".to_string(),
        name: "vm".to_string(),
        boot_option: BootOption::CloudImage,
        os: Some(LinuxDistro::ArchLinux),
        arch: Arch::X86_64,
        vcpu: 2,
        memory: 2048,
        drives,
        networks: vec![Network::with_id_number(7, NetworkBackend::User, Nic::Virtio, Vec::new(), None)],
        remote_access,
        fs: Vec::new(),
    }
}

#[test]
fn data_and_run_directories() {
    assert_eq!(get_kudu_data_dir(0, "/root"), "/var/lib/kudu");
    assert_eq!(get_kudu_data_dir(1000, "/home/u"), "/home/u/.local/share/kudu");
    assert_eq!(get_kudu_run_dir(0), "/var/lib/kudu/run");
    assert_eq!(get_kudu_run_dir(1000), "/run/user/1000/kudu");
    assert_eq!(VM::get_socket_file("/run/user/1000/kudu", "abc"), "/run/user/1000/kudu/abc/socket");
    assert_eq!(VM::get_events_file("/r", "abc"), "/r/abc/events");
    assert_eq!(VM::get_pid_file("/r", "abc"), "/r/abc/pidfile");
    assert_eq!(VM::get_dir("/d", "abc"), "/d/vms/abc");
}

#[test]
fn created_vm_drives() {
    let data = VMBuildData {
        boot_option: BootOption::LocalFile,
        arch: Arch::X86_64,
        name: "n".to_string(),
        cloudinit: Some("/tmp/ud".to_string()),
        boot_file: Some("/isos/a.iso".to_string()),
        os: None,
        vcpu: 1,
        memory: 512,
        networks: Vec::new(),
        enable_uefi: true,
        disks: vec![Disk { size: 10, format: Format::Raw, interface: Interface::Ide }],
        remote_access: None,
    };
    let vm = VM::create(data, "abc".to_string(), "/d", Some("debian"), Some((3, Format::Raw)));
    assert_eq!(vm.id, "abc");
    let paths: Vec<&str> = vm.drives.iter().map(|d| d.path.as_str()).collect();
    assert_eq!(
        paths,
        vec![
            "/d/vms/abc/cloudinit.iso",
            "/usr/share/OVMF/OVMF_CODE_4M.fd",
            "/d/vms/abc/uefi_vars.fd",
            "/d/vms/abc/disk_0",
            "/isos/a.iso"
        ]
    );
    assert_eq!(vm.drives[0].media, Media::CdRom);
    assert_eq!(vm.drives[1].unit, Some(0));
    assert_eq!(vm.drives[2].unit, Some(1));
    assert!(!vm.drives[2].read_only);
    assert_eq!(vm.drives[3].interface, Interface::Ide);
    assert_eq!(vm.drives[3].size, Some(10));
    assert_eq!(vm.drives[4].media, Media::CdRom);
    assert!(vm.drives[4].read_only);
}

#[test]
fn created_vm_without_uefi_files() {
    let data = VMBuildData {
        boot_option: BootOption::CloudImage,
        arch: Arch::Riscv64,
        name: "n".to_string(),
        cloudinit: None,
        boot_file: None,
        os: Some(LinuxDistro::ArchLinux),
        vcpu: 1,
        memory: 512,
        networks: Vec::new(),
        enable_uefi: true,
        disks: Vec::new(),
        remote_access: None,
    };
    let vm = VM::create(data, "x".to_string(), "/d", Some("fedora"), None);
    assert!(vm.drives.is_empty());
}

#[test]
fn disks_leave_out_firmware() {
    let vm = vm_with(vec![drive("/fw", Interface::Pflash), drive("/a", Interface::Virtio)], None);
    let disks = vm.disks();
    assert_eq!(disks.len(), 1);
    assert_eq!(disks[0].path, "/a");
}

#[test]
fn boot_drive_added_once() {
    let mut vm = vm_with(Vec::new(), None);
    vm.add_boot_drive("/d", Some(8));
    vm.add_boot_drive("/d", Some(8));
    assert_eq!(vm.drives.len(), 1);
    assert_eq!(vm.drives[0].path, "/d/vms/1234/boot");
    vm.add_boot_drive("/d", Some(9));
    assert_eq!(vm.drives.len(), 2);
}

#[test]
fn edit_form_round_trip_keeps_the_vm() {
    let vnc = VNC { host: Ipv4 { a: 10, b: 0, c: 2, d: 15 }, password: Some("pw".to_string()) };
    let vm = vm_with(vec![drive("/a", Interface::Virtio)], Some(RemoteAccess::Vnc(vnc)));
    let mut e = EditVM::new(&vm);
    assert_eq!(e.vcpu, "2");
    assert_eq!(e.memory, "2048");
    assert_eq!(e.vnc.host, "10.0.2.15");
    assert!(e.can_submit());
    assert_eq!(e.handle_key_events(Key::Enter, Arch::X86_64, false), EditAction::Submit);
    let data = e.edit_data();
    assert_eq!(data.new_vcpu, 2);
    assert_eq!(data.new_memory, 2048);
    assert_eq!(data.networks.len(), 1);
    match data.remote_access {
        Some(RemoteAccess::Vnc(v)) => {
            assert_eq!(v.host, Ipv4 { a: 10, b: 0, c: 2, d: 15 });
            assert_eq!(v.password.as_deref(), Some("pw"));
        }
        _ => panic!("VNC kept"),
    }
}

#[test]
fn edit_form_marks_and_applies_disk_changes() {
    let mut vm = vm_with(vec![drive("/a", Interface::Virtio), drive("/b", Interface::Virtio)], None);
    let mut e = EditVM::new(&vm);
    assert!(!e.vnc.enabled);
    e.handle_key_events(Key::Tab, Arch::X86_64, false);
    assert_eq!(e.section, Section::Storage);
    e.handle_key_events(Key::Char('d'), Arch::X86_64, false);
    assert_eq!(e.deleted_disks, vec!["/a".to_string()]);
    e.handle_key_events(Key::Char('u'), Arch::X86_64, false);
    assert!(e.deleted_disks.is_empty());
    e.handle_key_events(Key::Char('j'), Arch::X86_64, false);
    e.handle_key_events(Key::Char('d'), Arch::X86_64, false);
    e.handle_key_events(Key::Char('n'), Arch::X86_64, false);
    e.new_disk.as_mut().unwrap().size = "4".to_string();
    e.handle_key_events(Key::Enter, Arch::X86_64, false);
    assert_eq!(e.added_disks.len(), 1);
    e.section = Section::Hardware(HardwareSection::Cpu);
    e.vcpu = "3".to_string();
    let data = e.edit_data();
    vm.apply_edit("/d/vms/1234", data);
    assert_eq!(vm.vcpu, 3);
    let paths: Vec<&str> = vm.drives.iter().map(|d| d.path.as_str()).collect();
    assert_eq!(paths, vec!["/a", "/d/vms/1234/disk_1"]);
}

#[test]
fn edit_form_hardware_check_blocks_moves() {
    let vm = vm_with(Vec::new(), None);
    let mut e = EditVM::new(&vm);
    e.memory = "".to_string();
    assert_eq!(e.handle_key_events(Key::Down, Arch::X86_64, false), EditAction::ToField);
    assert_eq!(e.memory_error.as_deref(), Some("Field required"));
    e.memory = "128".to_string();
    assert_eq!(e.handle_key_events(Key::Down, Arch::X86_64, false), EditAction::Done);
    assert_eq!(e.section, Section::Hardware(HardwareSection::Memory));
    assert_eq!(e.section.as_usize(), 0);
    assert_eq!(Section::RemoteAccess.as_usize(), 4);
    e.handle_key_events(Key::BackTab, Arch::X86_64, false);
    assert_eq!(e.section, Section::RemoteAccess);
}

#[test]
fn tab_on_a_fresh_edit_form_checks_the_cpu() {
    let mut vm = vm_with(vec![], None);
    vm.vcpu = 0;
    let mut e = EditVM::new(&vm);
    assert_eq!(e.network.selected, Some(0));
    assert_eq!(e.port_forwarding.selected, None);
    assert_eq!(e.handle_key_events(Key::Tab, Arch::X86_64, false), EditAction::Done);
    assert_eq!(e.section, Section::Hardware(HardwareSection::Cpu));
    assert_eq!(e.vcpu_error.as_deref(), Some("vcpu value can not be 0"));
    assert_eq!(e.memory_error, None);
}

#[test]
fn edit_data_carries_the_vnc_password() {
    let vnc = VNC { host: Ipv4 { a: 127, b: 0, c: 0, d: 1 }, password: None };
    let vm = vm_with(vec![], Some(RemoteAccess::Vnc(vnc)));
    let mut e = EditVM::new(&vm);
    match e.edit_data().remote_access {
        Some(RemoteAccess::Vnc(v)) => assert_eq!(v.password, None),
        _ => panic!("VNC kept"),
    }
    e.vnc.password = "secret".to_string();
    match e.edit_data().remote_access {
        Some(RemoteAccess::Vnc(v)) => assert_eq!(v.password.as_deref(), Some("secret")),
        _ => panic!("VNC kept"),
    }
}

#[test]
fn firmware_shown_for_a_vm() {
    let bios = vm_with(vec![drive("/d.qcow2", Interface::Virtio)], None);
    assert!(!bios.has_uefi());
    assert_eq!(bios.firmware_label(), "BIOS");
    let uefi = vm_with(
        vec![drive("/d.qcow2", Interface::Virtio), drive("/code.fd", Interface::Pflash)],
        None,
    );
    assert!(uefi.has_uefi());
    assert_eq!(uefi.firmware_label(), "UEFI");
}
