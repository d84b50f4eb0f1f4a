//! The QEMU command line that starts a VM.
use vstd::prelude::*;
use vstd::string::*;

use crate::access::RemoteAccess;
use crate::access::vnc::vnc_args;
use crate::arch::Arch;
use crate::fs::{Filesystem, fs_args};
use crate::network::{Network, network_args};
use crate::storage::{Drive, drive_arg};
use crate::text::{concat, dec, extend_strings, to_decimal, views};
use crate::vm::VM;

verus! {

/// The QEMU program that emulates `a`.
pub open spec fn qemu_program(a: Arch) -> Seq<char> {
    match a {
        Arch::X86_64 => "qemu-system-x86_64"@,
        Arch::Aarch64 => "qemu-system-aarch64"@,
        Arch::Riscv64 => "qemu-system-riscv64"@,
    }
}

/// The machine arguments every VM of `a` starts with.
pub open spec fn arch_args(a: Arch) -> Seq<Seq<char>> {
    match a {
        Arch::X86_64 => seq!["-device"@, "VGA,edid=on,xres=1920,yres=1080"@],
        _ => seq![
            "-machine"@,
            "virt"@,
            "-cpu"@,
            "max"@,
            "-device"@,
            "virtio-gpu-pci"@,
            "-device"@,
            "qemu-xhci"@,
            "-device"@,
            "usb-kbd"@,
        ],
    }
}

/// The network arguments: every network's, or no card at all.
pub open spec fn networks_args(ns: Seq<Network>) -> Seq<Seq<char>> {
    if ns.len() == 0 {
        seq!["-nic"@, "none"@]
    } else {
        concat(ns.map_values(|n: Network| network_args(n)))
    }
}

/// The arguments of the shared directories.
pub open spec fn filesystems_args(fs: Seq<Filesystem>) -> Seq<Seq<char>> {
    concat(fs.map_values(|f: Filesystem| fs_args(f)))
}

/// The arguments that attach the drives.
pub open spec fn drives_args(ds: Seq<Drive>) -> Seq<Seq<char>> {
    concat(ds.map_values(|d: Drive| seq!["-drive"@, drive_arg(d)]))
}

/// The remote access arguments: VNC where configured, none otherwise.
pub open spec fn remote_args(r: Option<RemoteAccess>) -> Seq<Seq<char>> {
    match r {
        Some(a) => vnc_args(a->Vnc_0),
        None => seq!["-vnc"@, "none"@],
    }
}

/// KVM is used when the host runs the VM's architecture and KVM is available.
pub open spec fn kvm_on(host: Option<Arch>, a: Arch, kvm_enabled: bool) -> bool {
    host == Some(a) && kvm_enabled
}

/// The arguments that daemonize QEMU, open its two control sockets, and set
/// memory (MiB), vCPUs and boot order.
pub open spec fn control_args(
    socket: Seq<char>,
    events: Seq<char>,
    memory: u32,
    vcpu: u16,
) -> Seq<Seq<char>> {
    seq![
        "-daemonize"@,
        "-qmp"@,
        "unix:"@ + socket + ",server,wait=off"@,
        "-qmp"@,
        "unix:"@ + events + ",server,wait=off"@,
        "-m"@,
        dec(memory as nat),
        "-smp"@,
        dec(vcpu as nat),
        "-boot"@,
        "order=d"@,
    ]
}

/// The arguments QEMU is started with for `vm`.
pub open spec fn start_args(
    vm: VM,
    host: Option<Arch>,
    kvm_enabled: bool,
    socket: Seq<char>,
    events: Seq<char>,
) -> Seq<Seq<char>> {
    arch_args(vm.arch) + networks_args(vm.networks@) + (if kvm_on(host, vm.arch, kvm_enabled) {
        seq!["-enable-kvm"@]
    } else {
        Seq::empty()
    }) + remote_args(vm.remote_access) + filesystems_args(vm.fs@) + control_args(
        socket,
        events,
        vm.memory,
        vm.vcpu,
    ) + drives_args(vm.drives@)
}

fn push_strs(v: &mut Vec<String>, a: &str, b: &str)
    ensures
        views(final(v)@) == views(old(v)@) + seq![a@, b@],
{
    let ghost before = views(v@);
    v.push(String::from_str(a));
    v.push(String::from_str(b));
    assert(views(v@) =~= before + seq![a@, b@]);
}

fn push_string(v: &mut Vec<String>, s: String)
    ensures
        views(final(v)@) == views(old(v)@).push(s@),
{
    let ghost before = views(v@);
    v.push(s);
    assert(views(v@) =~= before.push(s@));
}

/// The QEMU program for `a`.
pub fn program(a: Arch) -> (r: &'static str)
    ensures
        r@ == qemu_program(a),
{
    match a {
        Arch::X86_64 => "qemu-system-x86_64",
        Arch::Aarch64 => "qemu-system-aarch64",
        Arch::Riscv64 => "qemu-system-riscv64",
    }
}

fn append_arch_args(args: &mut Vec<String>, a: Arch)
    ensures
        views(final(args)@) == views(old(args)@) + arch_args(a),
{
    let ghost a0 = views(args@);
    match a {
        Arch::X86_64 => {
            push_strs(args, "-device", "VGA,edid=on,xres=1920,yres=1080");
        },
        _ => {
            push_strs(args, "-machine", "virt");
            push_strs(args, "-cpu", "max");
            push_strs(args, "-device", "virtio-gpu-pci");
            push_strs(args, "-device", "qemu-xhci");
            push_strs(args, "-device", "usb-kbd");
        },
    }
    assert(views(args@) =~= a0 + arch_args(a));
}

fn append_network_args(args: &mut Vec<String>, networks: &Vec<Network>)
    ensures
        views(final(args)@) == views(old(args)@) + networks_args(networks@),
{
    let ghost a0 = views(args@);
    if networks.len() == 0 {
        push_strs(args, "-nic", "none");
    } else {
        let ghost all = networks@.map_values(|n: Network| network_args(n));
        let mut i: usize = 0;
        while i < networks.len()
            invariant
                i <= networks@.len(),
                all == networks@.map_values(|n: Network| network_args(n)),
                views(args@) == a0 + concat(all.take(i as int)),
            decreases networks@.len() - i,
        {
            let more = networks[i].to_qemu_arg();
            extend_strings(args, &more);
            assert(all.take(i + 1).drop_last() =~= all.take(i as int));
            assert(views(args@) =~= a0 + concat(all.take(i + 1)));
            i = i + 1;
        }
        assert(all.take(networks@.len() as int) =~= all);
    }
}

fn append_fs_args(args: &mut Vec<String>, fs: &Vec<Filesystem>)
    ensures
        views(final(args)@) == views(old(args)@) + filesystems_args(fs@),
{
    let ghost a0 = views(args@);
    let ghost all = fs@.map_values(|f: Filesystem| fs_args(f));
    let mut j: usize = 0;
    while j < fs.len()
        invariant
            j <= fs@.len(),
            all == fs@.map_values(|f: Filesystem| fs_args(f)),
            views(args@) == a0 + concat(all.take(j as int)),
        decreases fs@.len() - j,
    {
        let more = fs[j].to_qemu_arg();
        extend_strings(args, &more);
        assert(all.take(j + 1).drop_last() =~= all.take(j as int));
        assert(views(args@) =~= a0 + concat(all.take(j + 1)));
        j = j + 1;
    }
    assert(all.take(fs@.len() as int) =~= all);
}

fn append_drive_args(args: &mut Vec<String>, drives: &Vec<Drive>)
    ensures
        views(final(args)@) == views(old(args)@) + drives_args(drives@),
{
    let ghost a0 = views(args@);
    let ghost all = drives@.map_values(|d: Drive| seq!["-drive"@, drive_arg(d)]);
    let mut k: usize = 0;
    while k < drives.len()
        invariant
            k <= drives@.len(),
            all == drives@.map_values(|d: Drive| seq!["-drive"@, drive_arg(d)]),
            views(args@) == a0 + concat(all.take(k as int)),
        decreases drives@.len() - k,
    {
        let arg = drives[k].to_qemu_arg();
        push_strs(args, "-drive", arg.as_str());
        assert(all.take(k + 1).drop_last() =~= all.take(k as int));
        assert(views(args@) =~= a0 + concat(all.take(k + 1)));
        k = k + 1;
    }
    assert(all.take(drives@.len() as int) =~= all);
}

fn append_control_args(args: &mut Vec<String>, socket: &str, events: &str, memory: u32, vcpu: u16)
    ensures
        views(final(args)@) == views(old(args)@) + control_args(socket@, events@, memory, vcpu),
{
    let ghost a0 = views(args@);
    let mut qmp = String::from_str("unix:");
    qmp.append(socket);
    qmp.append(",server,wait=off");
    let mut qmp_events = String::from_str("unix:");
    qmp_events.append(events);
    qmp_events.append(",server,wait=off");
    push_string(args, String::from_str("-daemonize"));
    push_string(args, String::from_str("-qmp"));
    push_string(args, qmp);
    push_string(args, String::from_str("-qmp"));
    push_string(args, qmp_events);
    push_string(args, String::from_str("-m"));
    push_string(args, to_decimal(memory as u64));
    push_string(args, String::from_str("-smp"));
    push_string(args, to_decimal(vcpu as u64));
    push_string(args, String::from_str("-boot"));
    push_string(args, String::from_str("order=d"));
    assert(views(args@) =~= a0 + control_args(socket@, events@, memory, vcpu));
}

/// The QEMU emulator of a VM: the program and the arguments it is started
/// with.
pub struct Qemu;

impl Qemu {
    /// The program that runs a VM of architecture `a`.
    pub fn program(a: Arch) -> (r: &'static str)
        ensures
            r@ == qemu_program(a),
    {
        program(a)
    }
}

/// The arguments QEMU is started with for `vm`. `host` is the host's
/// architecture where it is one kudu knows, `kvm_enabled` whether KVM is
/// available, `socket` and `events` the paths of the control sockets.
pub fn start_arguments(
    vm: &VM,
    host: Option<Arch>,
    kvm_enabled: bool,
    socket: &str,
    events: &str,
) -> (r: Vec<String>)
    requires
        !(vm.remote_access matches Some(RemoteAccess::Spice)),
    ensures
        views(r@) == start_args(*vm, host, kvm_enabled, socket@, events@),
{
    let mut args: Vec<String> = Vec::new();
    append_arch_args(&mut args, vm.arch);
    append_network_args(&mut args, &vm.networks);
    let ghost a1 = views(args@);
    if host.is_some() && host.unwrap() == vm.arch && kvm_enabled {
        push_string(&mut args, String::from_str("-enable-kvm"));
    }
    let ghost a2 = views(args@);
    match &vm.remote_access {
        Some(remote) => {
            let more = remote.to_qemu_arg();
            extend_strings(&mut args, &more);
        },
        None => {
            push_strs(&mut args, "-vnc", "none");
        },
    }
    let ghost a3 = views(args@);
    append_fs_args(&mut args, &vm.fs);
    append_control_args(&mut args, socket, events, vm.memory, vm.vcpu);
    append_drive_args(&mut args, &vm.drives);
    assert(views(args@) =~= start_args(*vm, host, kvm_enabled, socket@, events@));
    args
}

} // verus!
