use kudu::access::vnc::{Ipv4, VncBuilder};
use kudu::app::{MainAction, VmCommand, VmState, available_archs, main_action, vm_command};
use kudu::arch::Arch;
use kudu::cloudinit::{Cloudinit, userdata_content};
use kudu::confirmation::cancel::CancelConfirmation;
use kudu::fs::NewFs;
use kudu::key::Key;
use kudu::meminfo::{MemInfoError, parse_total_memory};
use kudu::network::builder::{NetworkBuilder, NewNetwork, mac_from_bytes, random_mac};
use kudu::network::port_forwarding::{MappingBuilder, Protocol};
use kudu::network::{Network, NetworkBackend, Nic};
use kudu::notification::{Notification, NotificationLevel, tick};
use kudu::selection::{select_next, select_prev};
use kudu::storage::{Drive, Format, Interface, Media};
use kudu::vmbuilder::fs::FsBuilder;
use kudu::vmedit::storage::{ResizeError, SizePatterns, StorageEdit};

#[test]
fn total_memory_from_meminfo() {
    let text = "MemTotal:       16318412 kB\nMemFree:         1234 kB\n";
    assert_eq!(parse_total_memory(text), Ok(15935));
    assert_eq!(parse_total_memory("MemFree: 1 kB\n"), Ok(0));
    assert_eq!(parse_total_memory("MemTotal: lots kB\n"), Err(MemInfoError::InvalidNumber));
    assert_eq!(parse_total_memory("  MemTotal:\t2048\n"), Ok(2));
    assert_eq!(parse_total_memory("MemTotal:\n"), Ok(0));
    assert_eq!(parse_total_memory("MemTotal: 1024 kB\nMemTotal: 4096 kB"), Ok(4));
}

#[test]
fn main_screen_keys() {
    let states = vec![VmState::Shutdown, VmState::Running];
    assert_eq!(main_action(Key::Char('q'), false, None, &states), MainAction::Quit);
    assert_eq!(main_action(Key::Char('c'), true, None, &states), MainAction::Quit);
    assert_eq!(main_action(Key::Char('c'), false, Some(0), &states), MainAction::ToVm(0));
    assert_eq!(main_action(Key::Char('n'), false, None, &states), MainAction::NewVM);
    assert_eq!(main_action(Key::Char('j'), false, None, &states), MainAction::Select(0));
    assert_eq!(main_action(Key::Char('j'), false, Some(0), &states), MainAction::Select(1));
    assert_eq!(main_action(Key::Char('j'), false, Some(1), &states), MainAction::Select(1));
    assert_eq!(main_action(Key::Char('k'), false, Some(0), &states), MainAction::Select(0));
    assert_eq!(main_action(Key::Char('d'), false, Some(0), &states), MainAction::AskDelete);
    assert_eq!(main_action(Key::Char('d'), false, Some(1), &states), MainAction::Nothing);
    assert_eq!(main_action(Key::Char('e'), false, Some(0), &states), MainAction::Edit(0));
    assert_eq!(main_action(Key::Char('e'), false, Some(1), &states), MainAction::EditRefused);
    assert_eq!(main_action(Key::Char('v'), false, Some(1), &states), MainAction::DumpDrives(1));
    assert_eq!(main_action(Key::Enter, false, None, &states), MainAction::Nothing);
}

#[test]
fn vm_keys() {
    assert_eq!(vm_command(Key::Enter, VmState::Running), VmCommand::Pause);
    assert_eq!(vm_command(Key::Char(' '), VmState::Paused), VmCommand::Resume);
    assert_eq!(vm_command(Key::Enter, VmState::Shutdown), VmCommand::Start);
    assert_eq!(vm_command(Key::Enter, VmState::Suspended), VmCommand::Nothing);
    assert_eq!(vm_command(Key::Char('s'), VmState::Shutdown), VmCommand::PowerDown);
    assert_eq!(vm_command(Key::Char('x'), VmState::Running), VmCommand::Quit);
    assert_eq!(vm_command(Key::Char('x'), VmState::Shutdown), VmCommand::Nothing);
}

#[test]
fn host_architectures() {
    assert_eq!(available_archs(true, false, true), vec![Arch::X86_64, Arch::Riscv64]);
    assert!(available_archs(false, false, false).is_empty());
}

#[test]
fn notifications_last_ten_ticks() {
    let mut ns = vec![Notification::new("hello".to_string(), NotificationLevel::Info)];
    for k in 1..10 {
        tick(&mut ns);
        assert_eq!(ns.len(), 1);
        assert_eq!(ns[0].ttl, 10 - k);
    }
    tick(&mut ns);
    assert!(ns.is_empty());
    let e = Notification::error("boom".to_string());
    assert_eq!(e.level, NotificationLevel::Error);
    assert_eq!(e.ttl, 10);
}

#[test]
fn cloudinit_files() {
    assert_eq!(
        userdata_content("kudu", "pw"),
        "#cloud-config\nssh_pwauth: true\nusers:\n  - name: kudu\n    shell: /usr/bin/bash\n    sudo: ALL=(ALL) NOPASSWD:ALL\n    plain_text_passwd: pw\n    lock_passwd: false\n"
    );
    assert_eq!(Cloudinit::user_data("a", "b"), userdata_content("a", "b"));
    assert_eq!(
        Cloudinit::iso_args("/o.iso", "/t/user-data", "/t/meta-data"),
        vec!["-as", "genisoimage", "-output", "/o.iso", "-volid", "CIDATA", "-joliet", "-quiet", "-rock", "/t/user-data", "/t/meta-data"]
    );
}

#[test]
fn ipv4_reading_and_writing() {
    assert_eq!(Ipv4::parse("192.168.1.10"), Some(Ipv4 { a: 192, b: 168, c: 1, d: 10 }));
    assert_eq!(Ipv4::parse("0.0.0.0"), Some(Ipv4 { a: 0, b: 0, c: 0, d: 0 }));
    assert_eq!(Ipv4::parse("256.1.1.1"), None);
    assert_eq!(Ipv4::parse("01.1.1.1"), None);
    assert_eq!(Ipv4::parse("1.1.1"), None);
    assert_eq!(Ipv4::parse("1.1.1.1.1"), None);
    assert_eq!(Ipv4::parse(""), None);
    let ip = Ipv4 { a: 10, b: 200, c: 0, d: 255 };
    assert_eq!(ip.to_text(), "10.200.0.255");
    assert_eq!(Ipv4::parse(&ip.to_text()), Some(ip));
}

#[test]
fn vnc_form_checks() {
    let mut v = VncBuilder::default();
    assert!(v.validate());
    v.host = "300.1.1.1".to_string();
    v.password = "123456789".to_string();
    assert!(!v.validate());
    assert_eq!(v.host_error.as_deref(), Some("Invalid host addresse"));
    assert_eq!(v.password_error.as_deref(), Some("The password is limited to 8 characters"));
    v.host = "127.0.0.1".to_string();
    v.password = "12345678".to_string();
    assert!(v.validate());
    let b = v.build().unwrap();
    assert_eq!(b.password.as_deref(), Some("12345678"));
    assert!(!v.handle_key_events(Key::Right));
    assert!(!v.is_enabled());
    assert!(v.build().is_none());
}

#[test]
fn mac_addresses() {
    assert_eq!(mac_from_bytes([0xff, 1, 2, 3, 4, 0xab]), "FE:01:02:03:04:AB");
    let mut f = NewNetwork::new();
    f.mac = random_mac();
    assert!(f.validate());
    f.mac = "00:11:22:33:44".to_string();
    assert!(!f.validate());
    assert_eq!(f.mac_error.as_deref(), Some("Unvalid MAC address"));
    f.mac = "00-11:22:33:44:55".to_string();
    assert!(f.validate());
    f.mac = "0g:11:22:33:44:55".to_string();
    assert!(!f.validate());
}

#[test]
fn network_list_of_a_new_vm() {
    let mut b = NetworkBuilder::new();
    assert_eq!(b.networks().len(), 1);
    b.handle_key_events(Key::Char('n'), false);
    assert!(b.new_network_popup());
    b.handle_key_events(Key::Enter, false);
    assert_eq!(b.networks.len(), 2);
    b.handle_key_events(Key::Char('j'), false);
    assert_eq!(b.selected, Some(1));
    b.handle_key_events(Key::Char('d'), false);
    assert_eq!(b.networks.len(), 1);
    assert_eq!(b.selected, Some(0));
    b.handle_key_events(Key::Char('d'), false);
    assert!(b.networks.is_empty());
    assert_eq!(b.selected, None);
}

#[test]
fn mapping_form_keys() {
    let mut f = MappingBuilder::new();
    assert!(!f.handle_key_events(Key::Right, 3));
    assert_eq!(f.selected_network, 1);
    f.handle_key_events(Key::Left, 3);
    f.handle_key_events(Key::Left, 3);
    assert_eq!(f.selected_network, 2);
    f.handle_key_events(Key::Up, 3);
    assert!(!f.handle_key_events(Key::Char('l'), 3));
    assert_eq!(f.protocol, Protocol::UDP);
    f.handle_key_events(Key::Up, 3);
    assert!(f.handle_key_events(Key::Char('8'), 3));
    assert_eq!(f.host_port, "8");
    assert_eq!(f.host_port_cursor, 1);
    assert!(!f.validate());
    assert_eq!(f.host_port_error, None);
    assert_eq!(f.guest_port_error.as_deref(), Some("Field required"));
    f.host_port = "0".to_string();
    f.guest_port = "x".to_string();
    assert!(!f.validate());
    assert_eq!(f.host_port_error.as_deref(), Some("Host Port can not be 0"));
    assert_eq!(f.guest_port_error.as_deref(), Some("Guest Port value should be a number"));
    f.host_port = "8080".to_string();
    f.guest_port = "80".to_string();
    assert!(f.validate());
    let nets = vec![
        Network::with_id_number(1, NetworkBackend::User, Nic::Virtio, Vec::new(), None),
        Network::with_id_number(2, NetworkBackend::User, Nic::Virtio, Vec::new(), None),
        Network::with_id_number(3, NetworkBackend::User, Nic::Virtio, Vec::new(), None),
    ];
    let (id, m) = f.build(&nets);
    assert_eq!(id, "00000003");
    assert_eq!(m.host_port, 8080);
    assert_eq!(m.guest_port, 80);
}

#[test]
fn list_highlight_moves() {
    assert_eq!(select_next(Some(0), 3), Some(1));
    assert_eq!(select_next(Some(2), 3), Some(2));
    assert_eq!(select_next(Some(usize::MAX), 3), Some(2));
    assert_eq!(select_next(None, 0), None);
    assert_eq!(select_prev(Some(0)), Some(0));
    assert_eq!(select_prev(Some(5)), Some(4));
}

#[test]
fn cancel_question() {
    let mut c = CancelConfirmation::new();
    assert_eq!(c.handle_key_events(Key::Enter), Some(false));
    c.handle_key_events(Key::Char('h'));
    assert_eq!(c.handle_key_events(Key::Enter), Some(true));
    assert_eq!(c.handle_key_events(Key::Tab), None);
}

#[test]
fn shared_directory_list() {
    let mut b = FsBuilder::new();
    b.handle_key_events(Key::Char('n'), true);
    b.handle_key_events(Key::Enter, true);
    assert!(b.new_fs_popup());
    assert_eq!(b.new_fs.as_ref().unwrap().source_path_error.as_deref(), Some("Field required"));
    {
        let f: &mut NewFs = b.new_fs.as_mut().unwrap();
        f.source_path = "/srv".to_string();
        f.mount_tag = "srv 1".to_string();
    }
    b.handle_key_events(Key::Enter, true);
    assert_eq!(b.new_fs.as_ref().unwrap().source_path_error.as_deref(), Some("Mount tag should be alphanumeric"));
    b.new_fs.as_mut().unwrap().mount_tag = "srv1".to_string();
    b.handle_key_events(Key::Enter, false);
    assert!(b.new_fs_popup());
    b.handle_key_events(Key::Enter, true);
    assert!(!b.new_fs_popup());
    assert_eq!(b.filesystems().len(), 1);
    assert_eq!(b.selected, Some(0));
}

#[test]
fn new_sizes_read_with_regex() {
    let p = SizePatterns::new().unwrap();
    let g = 1u64 << 30;
    assert_eq!(StorageEdit::checked_new_size(g, "+1G", &p.parts), Some(Ok(2 * g)));
    assert_eq!(StorageEdit::checked_new_size(g, "-2G", &p.parts), Some(Err(ResizeError::NegativeSize)));
    assert_eq!(StorageEdit::checked_new_size(3 * g, "-1G", &p.parts), Some(Ok(2 * g)));
    assert_eq!(StorageEdit::checked_new_size(g, "512M", &p.parts), Some(Ok(512 << 20)));
    assert_eq!(StorageEdit::checked_new_size(1 << 20, "-1M", &p.parts), Some(Ok(0)));
    assert_eq!(StorageEdit::checked_new_size(g, "+4K", &p.parts), Some(Ok(g + 4096)));
    assert_eq!(StorageEdit::checked_new_size(g, "big", &p.parts), None);
    assert_eq!(StorageEdit::new_size_to_u16(g, "size: 2G", &p.parts), Ok(2 * g));
}

#[test]
fn resize_form_in_the_storage_section() {
    let p = SizePatterns::new().unwrap();
    let d = Drive { path: "/a".to_string(), interface: Interface::Virtio, media: Media::Disk, format: Format::Qcow2, read_only: false, unit: None, size: Some(1) };
    let mut s = StorageEdit::new(vec![d]);
    s.handle_key_events(Key::Char('r'), Arch::X86_64, &p);
    assert!(s.new_drive_popup());
    assert!(s.handle_key_events(Key::Char('x'), Arch::X86_64, &p));
    s.drive_resize.as_mut().unwrap().new_size = "ten".to_string();
    s.handle_key_events(Key::Enter, Arch::X86_64, &p);
    assert_eq!(s.drive_resize.as_ref().unwrap().new_size_error.as_deref(), Some("Invalid input"));
    s.drive_resize.as_mut().unwrap().new_size = "+10G".to_string();
    s.handle_key_events(Key::Enter, Arch::X86_64, &p);
    assert!(!s.new_drive_popup());
    assert_eq!(s.resized_drives(), vec![("/a".to_string(), "+10G".to_string())]);
    s.handle_key_events(Key::Char('r'), Arch::X86_64, &p);
    assert!(!s.new_drive_popup());
    s.handle_key_events(Key::Char('d'), Arch::X86_64, &p);
    assert_eq!(s.deleted_drive_paths(), vec!["/a".to_string()]);
    assert!(s.resized_drives().is_empty());
    s.handle_key_events(Key::Char('u'), Arch::X86_64, &p);
    assert!(s.deleted_drive_paths().is_empty());
}

#[test]
fn notifications_age_among_others() {
    let mut ns = vec![Notification::new("first".to_string(), NotificationLevel::Info)];
    for _ in 0..4 {
        tick(&mut ns);
    }
    ns.push(Notification::error("second".to_string()));
    for _ in 0..6 {
        tick(&mut ns);
    }
    // The first is gone at its tenth tick, the second has four left.
    assert_eq!(ns.len(), 1);
    assert_eq!(ns[0].message, "second");
    assert_eq!(ns[0].ttl, 4);
}
