use kudu::app::{MainAction, edit_refused_notification, focus_after, FocusedSection};
use kudu::edit::{edit_field, edit_text, end_of};
use kudu::key::Key;
use kudu::notification::NotificationLevel;
use kudu::storage::{Drive, Format, Interface, Media};
use kudu::vm::last_events;
use kudu::vmbuilder::quick::{Quick, QuickAction, Section};
use kudu::vmedit::storage::DriveResize;

fn typed(text: &str, cursor: usize, keys: &[Key]) -> (String, usize) {
    let mut t = text.to_string();
    let mut c = cursor;
    for k in keys {
        edit_field(&mut t, &mut c, *k);
    }
    (t, c)
}

#[test]
fn characters_go_in_at_the_cursor() {
    assert_eq!(typed("", 0, &[Key::Char('a'), Key::Char('b')]), ("ab".to_string(), 2));
    assert_eq!(typed("ac", 1, &[Key::Char('b')]), ("abc".to_string(), 2));
    assert_eq!(typed("512", 3, &[Key::Char('0')]), ("5120".to_string(), 4));
}

#[test]
fn deleting_and_moving() {
    assert_eq!(typed("512", 3, &[Key::Backspace]), ("51".to_string(), 2));
    assert_eq!(typed("512", 0, &[Key::Backspace]), ("512".to_string(), 0));
    assert_eq!(typed("512", 0, &[Key::Delete]), ("12".to_string(), 0));
    assert_eq!(typed("512", 3, &[Key::Delete]), ("512".to_string(), 3));
    assert_eq!(typed("512", 3, &[Key::Home, Key::Char('1')]), ("1512".to_string(), 1));
    assert_eq!(typed("512", 0, &[Key::End]), ("512".to_string(), 3));
    assert_eq!(typed("512", 3, &[Key::Left, Key::Left, Key::Char('x')]), ("5x12".to_string(), 2));
    assert_eq!(typed("512", 1, &[Key::Right]), ("512".to_string(), 2));
}

#[test]
fn keys_with_control() {
    assert_eq!(typed("kudu", 4, &[Key::Ctrl('u')]), ("".to_string(), 0));
    assert_eq!(typed("kudu", 4, &[Key::Ctrl('a')]), ("kudu".to_string(), 0));
    assert_eq!(typed("kudu", 0, &[Key::Ctrl('e')]), ("kudu".to_string(), 4));
    assert_eq!(typed("kudu", 2, &[Key::Ctrl('k')]), ("ku".to_string(), 2));
    assert_eq!(typed("kudu", 4, &[Key::Ctrl('h')]), ("kud".to_string(), 3));
    assert_eq!(edit_text("kudu", 4, Key::Char('u'), true), ("".to_string(), 0));
}

#[test]
fn keys_that_leave_a_field_alone() {
    for k in [Key::Tab, Key::BackTab, Key::Enter, Key::Esc, Key::Up, Key::Down, Key::Other] {
        assert_eq!(typed("kudu", 2, &[k]), ("kudu".to_string(), 2));
    }
    assert_eq!(end_of(&"kudu".to_string()), 4);
}

#[test]
fn typing_a_name_in_the_quick_form() {
    let mut q = Quick::new();
    assert_eq!(q.section, Section::Name);
    assert_eq!(q.handle_key_events(Key::Char('w')), QuickAction::ToField);
    assert_eq!(q.handle_key_events(Key::Char('e')), QuickAction::ToField);
    assert_eq!(q.handle_key_events(Key::Char('b')), QuickAction::ToField);
    assert_eq!(q.name, "web");
    assert_eq!(q.name_cursor, 3);
    q.handle_key_events(Key::Backspace);
    assert_eq!(q.name, "we");
    q.handle_key_events(Key::Tab);
    q.handle_key_events(Key::Tab);
    q.handle_key_events(Key::Tab);
    assert_eq!(q.section, Section::Cpu);
    q.handle_key_events(Key::Backspace);
    q.handle_key_events(Key::Char('4'));
    assert_eq!(q.vcpu, "4");
    assert_eq!(q.name, "we");
    assert_eq!(q.memory, "512");
}

#[test]
fn typing_a_new_size() {
    let drive = Drive {
        path: "/vms/disk.qcow2".to_string(),
        interface: Interface::Virtio,
        media: Media::Disk,
        format: Format::Qcow2,
        read_only: false,
        unit: None,
        size: Some(20),
    };
    let mut r = DriveResize::new(&drive);
    for c in ['+', '1', '0', 'G'] {
        assert!(r.handle_key_events(Key::Char(c)));
    }
    assert_eq!(r.new_size, "+10G");
    assert_eq!(r.new_size_cursor, 4);
    r.handle_key_events(Key::Home);
    r.handle_key_events(Key::Delete);
    assert_eq!(r.new_size, "10G");
    assert_eq!(r.new_size_cursor, 0);
}

#[test]
fn refused_edit_is_told() {
    let n = edit_refused_notification();
    assert_eq!(n.message, "VM should be shutdown before edit");
    assert_eq!(n.level, NotificationLevel::Info);
    assert_eq!(n.ttl, 10);
    assert_eq!(focus_after(MainAction::EditRefused), FocusedSection::Main);
    assert_eq!(focus_after(MainAction::Edit(2)), FocusedSection::EditVM);
    assert_eq!(focus_after(MainAction::NewVM), FocusedSection::NewVM);
    assert_eq!(focus_after(MainAction::AskDelete), FocusedSection::DeleteConfirmation);
    assert_eq!(focus_after(MainAction::Quit), FocusedSection::Main);
}

#[test]
fn last_eight_events() {
    let few: Vec<String> = (0..3).map(|i| format!("e{i}")).collect();
    assert_eq!(last_events(&few), few);
    let many: Vec<String> = (0..11).map(|i| format!("e{i}")).collect();
    assert_eq!(last_events(&many), many[3..].to_vec());
    assert_eq!(last_events(&Vec::new()).len(), 0);
}
