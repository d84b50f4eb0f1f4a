use kudu::access::RemoteAccess;
use kudu::access::vnc::{Ipv4, VNC};
use kudu::arch::Arch;
use kudu::fs::{Filesystem, FsDriver};
use kudu::graphics::{Display, Graphics, GraphicsDevice, VirtioConfig};
use kudu::network::backend::NetworkBackend as SocketBackend;
use kudu::network::port_forwarding::{PortMapping, Protocol};
use kudu::network::{Network, NetworkBackend, Nic, forwards_string};
use kudu::qemu::{Qemu, start_arguments};
use kudu::storage::{Disk, Drive, Format, Interface, Media};
use kudu::vm::{BootOption, VM};

fn ssh() -> PortMapping {
    PortMapping { guest_port: 22, host_port: 2222, protocol: Protocol::TCP }
}

#[test]
fn user_network_arguments() {
    let n = Network::with_id_number(0xdeadbeef, NetworkBackend::User, Nic::Virtio, vec![ssh()], None);
    assert_eq!(n.id, "deadbeef");
    assert_eq!(
        n.to_qemu_arg(),
        vec!["-device", "virtio-net-pci,netdev=netdeadbeef", "-netdev", "user,id=netdeadbeef,hostfwd=tcp::2222-:22"]
    );
}

#[test]
fn passt_network_arguments() {
    let dns = PortMapping { guest_port: 53, host_port: 5353, protocol: Protocol::UDP };
    let n = Network::with_id_number(1, NetworkBackend::Passt, Nic::E1000, vec![ssh(), dns], Some("52:54:00:12:34:56".to_string()));
    assert_eq!(
        n.to_qemu_arg(),
        vec![
            "-device",
            "e1000,netdev=net00000001,mac=52:54:00:12:34:56",
            "-netdev",
            "passt,id=net00000001,tcp-ports=2222:22,udp-ports=5353:53"
        ]
    );
}

#[test]
fn tap_network_arguments() {
    let n = Network::with_id_number(0xab, NetworkBackend::Tap, Nic::RTL8139, Vec::new(), None);
    assert_eq!(
        n.to_qemu_arg(),
        vec!["-device", "rtl8139,netdev=net000000ab", "-netdev", "tap,id=net000000ab,ifname=tapnet000000ab,script=no,downscript=no"]
    );
}

#[test]
fn forwarding_rules_joined() {
    assert_eq!(forwards_string(&vec![ssh(), ssh()], false), "hostfwd=tcp::2222-:22,hostfwd=tcp::2222-:22");
    assert_eq!(forwards_string(&Vec::new(), true), "");
}

#[test]
fn random_networks_get_eight_hex_digits() {
    let n = Network::new(NetworkBackend::User, Nic::Virtio, Vec::new(), None);
    assert_eq!(n.id.len(), 8);
    assert!(n.id.chars().all(|c| c.is_ascii_hexdigit() && !c.is_ascii_uppercase()));
}

#[test]
fn socket_backend_arguments() {
    assert_eq!(
        SocketBackend::User.to_qemu_arg(&vec![ssh()], None),
        vec!["-device", "virtio-net-pci,netdev=net0", "-netdev", "user,id=net0,hostfwd=tcp::2222-:22"]
    );
    assert_eq!(
        SocketBackend::Passt.to_qemu_arg(&vec![ssh()], Some("/tmp/passt.sock")),
        vec![
            "-device",
            "virtio-net-pci,netdev=net0",
            "-netdev",
            "stream,id=net0,server=off,addr.type=unix,addr.path=/tmp/passt.sock,hostfwd=tcp::2222-:22"
        ]
    );
    assert_eq!(
        SocketBackend::Passt.to_qemu_arg(&Vec::new(), None),
        vec!["-device", "virtio-net-pci,netdev=net0", "-netdev"]
    );
}

#[test]
fn drive_arguments() {
    let d = Drive {
        path: "/vms/a/cloudinit.iso".to_string(),
        interface: Interface::Virtio,
        media: Media::CdRom,
        format: Format::Raw,
        read_only: true,
        unit: None,
        size: None,
    };
    assert_eq!(d.to_qemu_arg(), "file=/vms/a/cloudinit.iso,if=virtio,format=raw,readonly=on,media=cdrom");
    let p = Drive {
        path: "/usr/share/OVMF/OVMF_CODE_4M.fd".to_string(),
        interface: Interface::Pflash,
        media: Media::Disk,
        format: Format::Raw,
        read_only: true,
        unit: Some(0),
        size: None,
    };
    assert_eq!(p.to_qemu_arg(), "file=/usr/share/OVMF/OVMF_CODE_4M.fd,if=pflash,format=raw,readonly=on,unit=0");
}

#[test]
fn disk_image_creation_arguments() {
    let d = Disk { size: 20, format: Format::Qcow2, interface: Interface::Virtio };
    assert_eq!(d.create_args("/vms/a/disk_0"), vec!["create", "-f", "qcow2", "/vms/a/disk_0", "20G"]);
}

#[test]
fn filesystem_arguments() {
    let f = Filesystem {
        driver: FsDriver::Virtio9pPci,
        source_path: "/home/u/share".to_string(),
        mount_tag: "share".to_string(),
        readonly: true,
    };
    assert_eq!(f.to_qemu_arg(), vec!["-virtfs", "local,path=/home/u/share,mount_tag=share,security_model=none,readonly=on"]);
}

#[test]
fn graphics_arguments() {
    let g = Graphics::default();
    assert_eq!(g.to_qemu_arg(), vec!["-display", "none", "-vga", "none", "-device", "VGA,vgamem_mb=16"]);
    assert!(!g.is_gl_on());
    let v = Graphics {
        device: GraphicsDevice::Virtio(VirtioConfig { enable_3d: true, venus: false }),
        display: Display::Gtk,
    };
    assert!(v.is_gl_on());
    assert_eq!(
        v.to_qemu_arg(),
        vec!["-display", "gtk,gl=on", "-vga", "none", "-device", "virtio-gpu-gl,hostmem=8G,blob=true"]
    );
    let q = Graphics { device: GraphicsDevice::Qxl { vgamem: 64 }, display: Display::Sdl };
    assert_eq!(q.to_qemu_arg(), vec!["-display", "sdl", "-vga", "none", "-device", "qxl-vga,vgamem_mb=64"]);
}

#[test]
fn vnc_arguments() {
    let v = VNC { host: Ipv4 { a: 127, b: 0, c: 0, d: 1 }, password: Some("secret".to_string()) };
    assert_eq!(v.to_qemu_arg(), vec!["-vnc", "127.0.0.1:0,to=99,password=on"]);
    let r = RemoteAccess::Vnc(VNC { host: Ipv4 { a: 0, b: 0, c: 0, d: 0 }, password: None });
    assert_eq!(r.to_qemu_arg(), vec!["-vnc", "0.0.0.0:0,to=99"]);
}

fn small_vm(arch: Arch) -> VM {
    VM {
        id: "id1".to_string(),
        name: "vm".to_string(),
        boot_option: BootOption::CloudImage,
        os: None,
        arch,
        vcpu: 2,
        memory: 1024,
        drives: vec![Drive {
            path: "/d/boot".to_string(),
            interface: Interface::Virtio,
            media: Media::Disk,
            format: Format::Qcow2,
            read_only: false,
            unit: None,
            size: None,
        }],
        networks: Vec::new(),
        remote_access: None,
        fs: Vec::new(),
    }
}

#[test]
fn start_arguments_with_and_without_kvm() {
    let vm = small_vm(Arch::X86_64);
    let with = start_arguments(&vm, Some(Arch::X86_64), true, "/r/socket", "/r/events");
    assert_eq!(
        with,
        vec![
            "-device", "VGA,edid=on,xres=1920,yres=1080", "-nic", "none", "-enable-kvm", "-vnc", "none", "-daemonize", "-qmp",
            "unix:/r/socket,server,wait=off", "-qmp", "unix:/r/events,server,wait=off", "-m", "1024", "-smp", "2",
            "-boot", "order=d", "-drive", "file=/d/boot,if=virtio,format=qcow2"
        ]
    );
    let without = start_arguments(&vm, Some(Arch::X86_64), false, "/r/socket", "/r/events");
    assert!(!without.iter().any(|a| a == "-enable-kvm"));
    assert_eq!(without.len() + 1, with.len());
    let other_host = start_arguments(&vm, Some(Arch::Aarch64), true, "/r/socket", "/r/events");
    assert!(!other_host.iter().any(|a| a == "-enable-kvm"));
    assert_eq!(Qemu::program(Arch::X86_64), "qemu-system-x86_64");
    assert_eq!(Qemu::program(Arch::Riscv64), "qemu-system-riscv64");
}
