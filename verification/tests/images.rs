use kudu::disk::{DiskBuilder, DiskFormat, Section};
use kudu::key::Key;
use kudu::storage::{Drive, Format, InfoError};
use kudu::vm::VM;

#[test]
fn image_size_from_qemu_img_report() {
    let report = "{\"virtual-size\": 10737418240, \"filename\": \"disk_0\", \"format\": \"qcow2\"}";
    assert_eq!(Drive::size_from_info(report), Ok(Some(10)));
    assert_eq!(Drive::format_from_info(report), Ok(Some(Format::Qcow2)));
}

#[test]
fn image_size_rounds_down() {
    let report = "{\"virtual-size\": 2684354560, \"format\": \"raw\"}";
    assert_eq!(Drive::size_from_info(report), Ok(Some(2)));
    assert_eq!(Drive::format_from_info(report), Ok(Some(Format::Raw)));
    assert_eq!(Drive::size_in_gib(1073741823), 0);
}

#[test]
fn image_report_errors() {
    assert_eq!(Drive::size_from_info("not json"), Err(InfoError::NotJson));
    assert_eq!(Drive::format_from_info("{"), Err(InfoError::NotJson));
    assert_eq!(Drive::size_from_info("{\"format\": \"raw\"}"), Ok(None));
    assert_eq!(Drive::format_from_info("{\"format\": \"vmdk\"}"), Ok(None));
    assert_eq!(Drive::size_from_info("{\"virtual-size\": -4}"), Ok(None));
}

#[test]
fn new_vm_ids_are_uuid_v4() {
    let a = VM::new_id();
    let b = VM::new_id();
    assert_eq!(a.len(), 36);
    let chars: Vec<char> = a.chars().collect();
    assert_eq!(chars[8], '-');
    assert_eq!(chars[14], '4');
    assert!(matches!(chars[19], '8' | '9' | 'a' | 'b'));
    assert_ne!(a, b);
}

#[test]
fn standalone_disk_form() {
    let mut f = DiskBuilder::new();
    assert!(!f.validate());
    assert_eq!(f.size_error.as_deref(), Some("Field required"));
    assert!(f.handle_key_events(Key::Char('4')));
    assert_eq!(f.size, "4");
    assert_eq!(f.size_cursor, 1);
    f.size = "0".to_string();
    assert!(!f.validate());
    assert_eq!(f.size_error.as_deref(), Some("Size can not be 0"));
    f.size = "x1".to_string();
    assert!(!f.validate());
    assert_eq!(f.size_error.as_deref(), Some("Size value should be a number"));
    f.size = "20".to_string();
    assert!(f.validate());
    assert!(!f.handle_key_events(Key::Down));
    assert_eq!(f.section, Section::Format);
    assert!(!f.handle_key_events(Key::Right));
    assert_eq!(f.format, DiskFormat::Raw);
    assert!(f.handle_key_events(Key::Char('j')));
    assert_eq!(f.section, Section::Format);
    assert_eq!(f.size, "2j0");
    assert!(f.handle_key_events(Key::Backspace));
    assert_eq!(f.size, "20");
    let d = f.build("/tmp/kudu_disk_1".to_string());
    assert_eq!(d.size, 20);
    assert_eq!(
        d.create_args(),
        vec!["create", "-f", "raw", "/tmp/kudu_disk_1", "20G"]
    );
}

#[test]
fn vm_file_names() {
    assert_eq!(VM::disk_file("/var/lib/kudu/vms/a", 3), "/var/lib/kudu/vms/a/disk_3");
    assert_eq!(VM::disk_file("/x/", 0), "/x/disk_0");
    assert_eq!(VM::cloudinit_file("/x"), "/x/cloudinit.iso");
    assert_eq!(VM::uefi_vars_file("/x"), "/x/uefi_vars.fd");
}
