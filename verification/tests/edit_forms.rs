use kudu::graphics::{
    DeviceKind, Display, Graphics, GraphicsBuilder, GraphicsDevice, GraphicsSection, VirtioConfig,
};
use kudu::fs::{Filesystem, FsDriver};
use kudu::key::Key;
use kudu::network::port_forwarding::{PortMapping, Protocol};
use kudu::network::{Network, NetworkBackend, Nic};
use kudu::vmedit::fs::FsEdit;
use kudu::vmedit::network::NetworkEdit;
use kudu::vmedit::port::PortForwarding;

fn net(n: u32, mappings: Vec<PortMapping>) -> Network {
    Network::with_id_number(n, NetworkBackend::User, Nic::Virtio, mappings, None)
}

fn rule(host: u16, guest: u16) -> PortMapping {
    PortMapping { guest_port: guest, host_port: host, protocol: Protocol::TCP }
}

fn share(path: &str, tag: &str) -> Filesystem {
    Filesystem {
        driver: FsDriver::Virtio9pPci,
        source_path: path.to_string(),
        mount_tag: tag.to_string(),
        readonly: false,
    }
}

#[test]
fn graphics_form_walks_the_cards() {
    let mut g = GraphicsBuilder::new(None);
    assert_eq!(g.section, GraphicsSection::Device);
    assert_eq!(g.device, DeviceKind::Std);
    assert_eq!(g.memory, "16");
    assert!(g.well_formed());

    // Standard card: Down goes to the display, then to the memory.
    assert!(!g.handle_key_events(Key::Down));
    assert_eq!(g.section, GraphicsSection::Display);
    assert!(!g.handle_key_events(Key::Right));
    assert_eq!(g.display, Display::Gtk);
    assert!(!g.handle_key_events(Key::Down));
    assert_eq!(g.section, GraphicsSection::Memory);
    assert!(g.handle_key_events(Key::Char('3')));
    g.memory = "32".to_string();
    assert!(g.validate());
    assert_eq!(
        g.build(),
        Graphics { device: GraphicsDevice::Std { vgamem: 32 }, display: Display::Gtk }
    );

    // Back to the card: Right picks QXL and resets the memory.
    assert!(!g.handle_key_events(Key::Down));
    assert_eq!(g.section, GraphicsSection::Device);
    assert!(!g.handle_key_events(Key::Right));
    assert_eq!(g.device, DeviceKind::Qxl);
    assert_eq!(g.memory, "16");

    // Virtio: 3D needs a display.
    assert!(!g.handle_key_events(Key::Right));
    assert_eq!(g.device, DeviceKind::Virtio);
    assert!(!g.handle_key_events(Key::Down));
    assert!(!g.handle_key_events(Key::Left));
    assert_eq!(g.display, Display::NoDisplay);
    assert!(!g.handle_key_events(Key::Down));
    assert_eq!(g.section, GraphicsSection::Enable3d);
    assert!(!g.handle_key_events(Key::Right));
    assert!(g.enable_3d);
    assert!(!g.validate());
    assert_eq!(g.display_error.as_deref(), Some("Display value can not be None"));
    assert!(!g.handle_key_events(Key::Down));
    assert_eq!(g.section, GraphicsSection::Venus);
    assert!(!g.handle_key_events(Key::Left));
    assert!(g.venus);
    assert_eq!(
        g.build(),
        Graphics {
            device: GraphicsDevice::Virtio(VirtioConfig { enable_3d: true, venus: true }),
            display: Display::NoDisplay,
        }
    );
    assert!(g.well_formed());
}

#[test]
fn graphics_form_memory_errors() {
    let mut g = GraphicsBuilder::new(Some(&Graphics {
        device: GraphicsDevice::Qxl { vgamem: 64 },
        display: Display::Sdl,
    }));
    assert_eq!(g.device, DeviceKind::Qxl);
    assert_eq!(g.memory, "64");
    assert_eq!(g.display, Display::Sdl);
    g.memory = String::new();
    assert!(!g.validate());
    assert_eq!(g.memory_error.as_deref(), Some("Field required"));
    g.memory = "0".to_string();
    assert!(!g.validate());
    assert_eq!(g.memory_error.as_deref(), Some("Memory value can not be 0"));
    g.memory = "a".to_string();
    assert!(!g.validate());
    assert_eq!(g.memory_error.as_deref(), Some("Memory value should be a number"));

    // Without a card the form only offers the card, and builds no display.
    assert!(!g.handle_key_events(Key::Left));
    assert!(!g.handle_key_events(Key::Left));
    assert_eq!(g.device, DeviceKind::NoDevice);
    assert!(!g.handle_key_events(Key::Down));
    assert_eq!(g.section, GraphicsSection::Device);
    assert!(g.validate());
    assert_eq!(
        g.build(),
        Graphics { device: GraphicsDevice::NoDevice, display: Display::NoDisplay }
    );
}

#[test]
fn network_edit_removes_restores_and_adds() {
    let mut networks = vec![net(1, vec![]), net(2, vec![])];
    let mut e = NetworkEdit::new(&networks);
    assert_eq!(e.selected, Some(0));
    assert!(!e.new_network_popup());

    // `d` marks the first network and takes it out of the VM's list.
    assert!(!e.handle_key_events(Key::Char('d'), false, &mut networks));
    assert_eq!(e.deleted_networks.len(), 1);
    assert_eq!(networks.len(), 1);
    assert_eq!(networks[0].id, "00000002");
    // `u` takes the removal back and puts it at the end.
    e.handle_key_events(Key::Char('u'), false, &mut networks);
    assert_eq!(e.deleted_networks.len(), 0);
    assert_eq!(networks.len(), 2);
    assert_eq!(networks[1].id, "00000001");

    // A new network with a bad MAC address stays open with an error.
    e.handle_key_events(Key::Char('n'), false, &mut networks);
    assert!(e.new_network_popup());
    e.handle_key_events(Key::Down, false, &mut networks);
    assert!(!e.handle_key_events(Key::Right, false, &mut networks));
    e.handle_key_events(Key::Down, false, &mut networks);
    assert!(e.handle_key_events(Key::Char('a'), false, &mut networks));
    e.new_network.as_mut().unwrap().mac = "52:54:00:12:34".to_string();
    e.handle_key_events(Key::Enter, false, &mut networks);
    assert!(e.new_network_popup());
    assert_eq!(
        e.new_network.as_ref().unwrap().mac_error.as_deref(),
        Some("Unvalid MAC address")
    );
    e.new_network.as_mut().unwrap().mac = "52:54:00:12:34:56".to_string();
    e.handle_key_events(Key::Enter, false, &mut networks);
    assert!(!e.new_network_popup());
    assert_eq!(e.added_networks.len(), 1);
    assert_eq!(e.added_networks[0].nic, Nic::E1000);
    assert_eq!(e.added_networks[0].mac.as_deref(), Some("52:54:00:12:34:56"));
    assert_eq!(networks.len(), 3);

    // Removing the added network drops it.
    e.handle_key_events(Key::Down, false, &mut networks);
    e.handle_key_events(Key::Down, false, &mut networks);
    assert_eq!(e.selected, Some(2));
    e.handle_key_events(Key::Char('d'), false, &mut networks);
    assert_eq!(e.added_networks.len(), 0);
    assert_eq!(networks.len(), 2);
}

#[test]
fn port_edit_records_and_applies_changes() {
    let mut networks = vec![net(1, vec![rule(2222, 22)]), net(2, vec![])];
    let mut p = PortForwarding::new(&networks);
    assert_eq!(p.selected, Some(0));

    // `d` marks the VM's rule once, `u` takes the mark back.
    p.handle_key_events(Key::Char('d'), &networks);
    p.handle_key_events(Key::Char('d'), &networks);
    assert_eq!(p.deleted_port_mappings.len(), 1);
    p.handle_key_events(Key::Char('u'), &networks);
    assert_eq!(p.deleted_port_mappings.len(), 0);

    // A new rule on the second network.
    p.handle_key_events(Key::Char('n'), &networks);
    assert!(p.new_mapping_popup());
    assert!(!p.handle_key_events(Key::Right, &networks));
    p.handle_key_events(Key::Down, &networks);
    assert!(p.handle_key_events(Key::Char('8'), &networks));
    {
        let form = p.new_mapping.as_mut().unwrap();
        form.guest_port = "80".to_string();
        form.host_port = "8080".to_string();
    }
    p.handle_key_events(Key::Enter, &networks);
    assert!(!p.new_mapping_popup());
    assert_eq!(p.added_port_mappings.len(), 1);
    assert_eq!(p.added_port_mappings[0].0, "00000002");
    assert_eq!(p.added_port_mappings[0].1, rule(8080, 80));

    // Remove the VM's own rule and apply everything.
    p.handle_key_events(Key::Char('d'), &networks);
    p.apply(&mut networks);
    assert_eq!(networks[0].port_mappings.len(), 0);
    assert_eq!(networks[1].port_mappings, vec![rule(8080, 80)]);

    // Added rules of a network that is gone are forgotten.
    networks.remove(1);
    p.refresh(&networks);
    assert_eq!(p.added_port_mappings.len(), 0);
}

#[test]
fn shared_directories_of_a_vm() {
    let mut e = FsEdit::new(vec![share("/srv", "srv"), share("/home", "home")]);
    assert_eq!(e.selected, Some(0));
    e.handle_key_events(Key::Char('d'), true);
    assert_eq!(e.deleted_fs.len(), 1);
    e.handle_key_events(Key::Char('u'), true);
    assert_eq!(e.deleted_fs.len(), 0);
    e.handle_key_events(Key::Down, true);
    e.handle_key_events(Key::Char('d'), true);

    e.handle_key_events(Key::Char('n'), true);
    assert!(e.new_fs_popup());
    {
        let f = e.new_fs.as_mut().unwrap();
        f.source_path = "/data".to_string();
        f.mount_tag = "data".to_string();
    }
    e.handle_key_events(Key::Enter, true);
    assert!(!e.new_fs_popup());

    let kept: Vec<String> = e.build().into_iter().map(|f| f.mount_tag).collect();
    assert_eq!(kept, vec!["srv".to_string(), "data".to_string()]);
}
