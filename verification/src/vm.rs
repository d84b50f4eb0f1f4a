//! Virtual machines: what is kept of each, where its files live, and how its
//! drives are put together.
use vstd::prelude::*;
use vstd::string::*;

use crate::access::RemoteAccess;
use crate::arch::Arch;
use crate::firmware::{get_uefi_file_path, opt_str_view, uefi_paths};
use crate::vmbuilder::VMBuildData;
use crate::vmedit::VMEditData;
use crate::distro::LinuxDistro;
use crate::fs::Filesystem;
use crate::network::Network;
use crate::storage::{Disk, Drive, DriveView, Format, Interface, Media, drive_view, drive_views};
use crate::text::{dec, path_join, push_path, str_equal, to_decimal};

verus! {

/// How a VM boots: from a distribution's cloud image or from a file of the user.
#[derive(Debug, Clone, Copy, PartialEq, Eq, Structural)]
pub enum BootOption {
    CloudImage,
    LocalFile,
}

impl Default for BootOption {
    fn default() -> (r: Self)
        ensures
            r == BootOption::CloudImage,
    {
        BootOption::CloudImage
    }
}

/// What is kept of a VM. `id` is its UUID in text form.
#[derive(Debug)]
pub struct VM {
    pub id: String,
    pub name: String,
    pub boot_option: BootOption,
    pub os: Option<LinuxDistro>,
    pub arch: Arch,
    pub vcpu: u16,
    pub memory: u32,
    pub drives: Vec<Drive>,
    pub networks: Vec<Network>,
    pub remote_access: Option<RemoteAccess>,
    pub fs: Vec<Filesystem>,
}

/// Where kudu keeps its data: under `/var/lib` for root, under the home
/// directory otherwise.
pub open spec fn kudu_data_dir(uid: u32, home: Seq<char>) -> Seq<char> {
    if uid == 0 {
        "/var/lib/kudu"@
    } else {
        path_join(home, ".local/share/kudu"@)
    }
}

/// Where kudu keeps the sockets and pid files of running VMs.
pub open spec fn kudu_run_dir(uid: u32) -> Seq<char> {
    if uid == 0 {
        "/var/lib/kudu/run"@
    } else {
        "/run/user/"@ + dec(uid as nat) + "/kudu"@
    }
}

/// The directory that keeps the files of the VM `id`.
pub open spec fn vm_dir(data_dir: Seq<char>, id: Seq<char>) -> Seq<char> {
    path_join(path_join(data_dir, "vms"@), id)
}

/// A file of the running VM `id`.
pub open spec fn run_file(run_dir: Seq<char>, id: Seq<char>, name: Seq<char>) -> Seq<char> {
    path_join(path_join(run_dir, id), name)
}

/// The data directory of the user `uid` whose home directory is `home`.
pub fn get_kudu_data_dir(uid: u32, home: &str) -> (r: String)
    ensures
        r@ == kudu_data_dir(uid, home@),
{
    if uid == 0 {
        String::from_str("/var/lib/kudu")
    } else {
        let mut p = String::from_str(home);
        push_path(&mut p, ".local/share/kudu");
        p
    }
}

/// The run directory of the user `uid`.
pub fn get_kudu_run_dir(uid: u32) -> (r: String)
    ensures
        r@ == kudu_run_dir(uid),
{
    if uid == 0 {
        String::from_str("/var/lib/kudu/run")
    } else {
        let mut p = String::from_str("/run/user/");
        p.append(to_decimal(uid as u64).as_str());
        p.append("/kudu");
        p
    }
}

fn run_path(run_dir: &str, id: &str, name: &str) -> (r: String)
    ensures
        r@ == run_file(run_dir@, id@, name@),
{
    let mut p = String::from_str(run_dir);
    push_path(&mut p, id);
    push_path(&mut p, name);
    p
}

/// The disks among `ds`: every drive but the firmware (pflash) ones, in order.
pub open spec fn keep_disks(ds: Seq<DriveView>) -> Seq<DriveView>
    decreases ds.len(),
{
    if ds.len() == 0 {
        Seq::empty()
    } else if ds.last().interface != Interface::Pflash {
        keep_disks(ds.drop_last()).push(ds.last())
    } else {
        keep_disks(ds.drop_last())
    }
}

/// The drives of `ds` whose path is not among `deleted`, in order.
pub open spec fn without_paths(ds: Seq<DriveView>, deleted: Seq<Seq<char>>) -> Seq<DriveView>
    decreases ds.len(),
{
    if ds.len() == 0 {
        Seq::empty()
    } else if !deleted.contains(ds.last().path) {
        without_paths(ds.drop_last(), deleted).push(ds.last())
    } else {
        without_paths(ds.drop_last(), deleted)
    }
}

/// The image file of the `index`-th disk of the VM kept in `dir`.
pub open spec fn disk_file_path(dir: Seq<char>, index: nat) -> Seq<char> {
    path_join(dir, "disk_"@ + dec(index))
}

/// The drive of the `index`-th new disk `d` of the VM kept in `dir`.
pub open spec fn disk_drive(dir: Seq<char>, d: Disk, index: nat) -> DriveView {
    DriveView {
        path: disk_file_path(dir, index),
        interface: d.interface,
        media: Media::Disk,
        format: d.format,
        read_only: false,
        unit: None,
        size: Some(d.size),
    }
}

/// The drives of the new disks `ds`, numbered from `offset`.
pub open spec fn disk_drives(dir: Seq<char>, ds: Seq<Disk>, offset: nat) -> Seq<DriveView> {
    Seq::new(ds.len(), |i: int| disk_drive(dir, ds[i], (i + offset) as nat))
}

/// The cloud-init image of the VM kept in `dir`, read-only on the virtio bus.
pub open spec fn cloudinit_drive(dir: Seq<char>) -> DriveView {
    DriveView {
        path: path_join(dir, "cloudinit.iso"@),
        interface: Interface::Virtio,
        media: Media::CdRom,
        format: Format::Raw,
        read_only: true,
        unit: None,
        size: None,
    }
}

/// The UEFI code (unit 0, read-only) and the VM's own copy of the variable
/// store (unit 1, writable), both on pflash.
pub open spec fn uefi_drives(code: Seq<char>, dir: Seq<char>) -> Seq<DriveView> {
    seq![
        DriveView {
            path: code,
            interface: Interface::Pflash,
            media: Media::Disk,
            format: Format::Raw,
            read_only: true,
            unit: Some(0),
            size: None,
        },
        DriveView {
            path: path_join(dir, "uefi_vars.fd"@),
            interface: Interface::Pflash,
            media: Media::Disk,
            format: Format::Raw,
            read_only: false,
            unit: Some(1),
            size: None,
        },
    ]
}

/// The drive of a boot file of `size` GiB in `format`: a writable disk when
/// it is qcow2, a read-only CD-ROM otherwise.
pub open spec fn boot_drive(path: Seq<char>, size: u64, format: Format) -> DriveView {
    DriveView {
        path,
        interface: Interface::Virtio,
        media: if format == Format::Qcow2 {
            Media::Disk
        } else {
            Media::CdRom
        },
        format,
        read_only: format != Format::Qcow2,
        unit: None,
        size: Some(size),
    }
}

/// The drives of a new VM: its cloud-init image, the UEFI files, its new
/// disks, then its boot file, each where present.
pub open spec fn created_drives(
    dir: Seq<char>,
    cloudinit: bool,
    uefi_code: Option<Seq<char>>,
    disks: Seq<Disk>,
    boot: Option<(Seq<char>, u64, Format)>,
) -> Seq<DriveView> {
    (if cloudinit {
        seq![cloudinit_drive(dir)]
    } else {
        Seq::empty()
    }) + (match uefi_code {
        Some(code) => uefi_drives(code, dir),
        None => Seq::empty(),
    }) + disk_drives(dir, disks, 0) + (match boot {
        Some((p, size, f)) => seq![boot_drive(p, size, f)],
        None => Seq::empty(),
    })
}

/// What the drives of a new VM allow: a CD-ROM is never writable; the
/// images of its new disks are writable disks; with UEFI, the firmware code
/// is read-only and the variable store writable, on pflash units 0 and 1;
/// and the boot file comes last, writable exactly when it is a qcow2 image
/// (then a disk) and otherwise a read-only CD-ROM.
pub proof fn lemma_created_drives_access(
    dir: Seq<char>,
    cloudinit: bool,
    uefi_code: Option<Seq<char>>,
    disks: Seq<Disk>,
    boot: Option<(Seq<char>, u64, Format)>,
)
    ensures
        ({
            let ds = created_drives(dir, cloudinit, uefi_code, disks, boot);
            let first = (if cloudinit { 1int } else { 0int });
            let off = first + (if uefi_code is Some { 2int } else { 0int });
            &&& forall|i: int| 0 <= i < ds.len() && ds[i].media == Media::CdRom ==> ds[i].read_only
            &&& forall|i: int| off <= i < off + disks.len() ==> !ds[i].read_only && ds[i].media
                == Media::Disk
            &&& uefi_code matches Some(c) ==> {
                &&& ds[first].path == c && ds[first].interface == Interface::Pflash
                &&& ds[first].read_only && ds[first].unit == Some(0u16)
                &&& ds[first + 1].interface == Interface::Pflash
                &&& !ds[first + 1].read_only && ds[first + 1].unit == Some(1u16)
            }
            &&& boot matches Some((p, size, f)) ==> {
                &&& ds.len() > 0
                &&& ds.last().path == p && ds.last().size == Some(size) && ds.last().format == f
                &&& (!ds.last().read_only <==> f == Format::Qcow2)
                &&& (ds.last().media == Media::Disk <==> f == Format::Qcow2)
                &&& ds.last().read_only == (ds.last().media == Media::CdRom)
            }
        }),
{
    let ds = created_drives(dir, cloudinit, uefi_code, disks, boot);
    let head = (if cloudinit {
        seq![cloudinit_drive(dir)]
    } else {
        Seq::<DriveView>::empty()
    }) + (match uefi_code {
        Some(code) => uefi_drives(code, dir),
        None => Seq::<DriveView>::empty(),
    });
    let mid = disk_drives(dir, disks, 0);
    let tail = match boot {
        Some((p, size, f)) => seq![boot_drive(p, size, f)],
        None => Seq::<DriveView>::empty(),
    };
    assert(ds == head + mid + tail);
    assert forall|i: int| 0 <= i < ds.len() && ds[i].media == Media::CdRom implies ds[i].read_only by {
        if i < head.len() {
            assert(ds[i] == head[i]);
        } else if i < head.len() + mid.len() {
            assert(ds[i] == mid[i - head.len()]);
        } else {
            assert(ds[i] == tail[i - head.len() - mid.len()]);
        }
    }
    let off = (if cloudinit { 1int } else { 0int }) + (if uefi_code is Some { 2int } else { 0int });
    assert(head.len() == off);
    assert forall|i: int| off <= i < off + disks.len() implies !ds[i].read_only && ds[i].media
        == Media::Disk by {
        assert(ds[i] == mid[i - off]);
    }
}

/// The UEFI code file a new VM boots with: the one for its architecture on a
/// host whose os-release identifier is `os`, when UEFI is on and the host's
/// files are known.
pub open spec fn uefi_code_for(enable: bool, os: Option<Seq<char>>, arch: Arch) -> Option<Seq<char>> {
    if enable {
        match uefi_paths(os, arch) {
            Ok((code, _)) => Some(code),
            Err(_) => None,
        }
    } else {
        None
    }
}

fn push_disk_drives(drives: &mut Vec<Drive>, dir: &str, disks: &Vec<Disk>, offset: usize)
    requires
        offset + disks@.len() <= usize::MAX,
    ensures
        drive_views(final(drives)@) == drive_views(old(drives)@) + disk_drives(
            dir@,
            disks@,
            offset as nat,
        ),
{
    let ghost head = drive_views(drives@);
    let mut i: usize = 0;
    while i < disks.len()
        invariant
            i <= disks@.len(),
            offset + disks@.len() <= usize::MAX,
            drive_views(drives@) == head + disk_drives(dir@, disks@.take(i as int), offset as nat),
        decreases disks@.len() - i,
    {
        let disk = disks[i];
        let path = VM::disk_file(dir, i + offset);
        let ghost before = drives@;
        let d = Drive {
            path,
            interface: disk.interface,
            media: Media::Disk,
            format: disk.format,
            read_only: false,
            unit: None,
            size: Some(disk.size),
        };
        drives.push(d);
        assert(drive_views(drives@) =~= drive_views(before).push(drive_view(d)));
        assert(disk_drives(dir@, disks@.take(i + 1), offset as nat) =~= disk_drives(
            dir@,
            disks@.take(i as int),
            offset as nat,
        ).push(disk_drive(dir@, disks@[i as int], (i + offset) as nat)));
        i = i + 1;
    }
    assert(disks@.take(disks@.len() as int) =~= disks@);
}

fn contains_path(paths: &Vec<String>, p: &str) -> (r: bool)
    ensures
        r == paths@.map_values(|s: String| s@).contains(p@),
{
    let ghost vs = paths@.map_values(|s: String| s@);
    let mut i: usize = 0;
    while i < paths.len()
        invariant
            i <= paths@.len(),
            vs == paths@.map_values(|s: String| s@),
            forall|j: int| 0 <= j < i ==> vs[j] != p@,
        decreases paths@.len() - i,
    {
        if str_equal(paths[i].as_str(), p) {
            assert(vs[i as int] == p@);
            return true;
        }
        i = i + 1;
    }
    false
}

/// A lower-case hexadecimal digit.
pub open spec fn is_lower_hex(c: char) -> bool {
    ('0' <= c && c <= '9') || ('a' <= c && c <= 'f')
}

/// A version-4 UUID in hyphenated lower-case text: 36 characters, hyphens
/// at 8, 13, 18 and 23 and lower-case hex digits elsewhere, `4` at 14 and
/// one of `8`, `9`, `a`, `b` at 19.
pub open spec fn is_uuid_v4_text(s: Seq<char>) -> bool {
    &&& s.len() == 36
    &&& forall|i: int|
        0 <= i < 36 ==> if i == 8 || i == 13 || i == 18 || i == 23 {
            s[i] == '-'
        } else {
            is_lower_hex(#[trigger] s[i])
        }
    &&& s[14] == '4'
    &&& (s[19] == '8' || s[19] == '9' || s[19] == 'a' || s[19] == 'b')
}

/// Calls `uuid::Uuid::new_v4` and writes the identifier with `to_string`.
/// The value is random; the contract claims only its shape, as the crate's
/// source shows it: `new_v4` sets the version and variant bits, and
/// `Display` writes the hyphenated lower-case form.
#[verifier::external_body]
fn random_uuid_text() -> (r: String)
    ensures
        is_uuid_v4_text(r@),
{
    uuid::Uuid::new_v4().to_string()
}

impl VM {
    /// A fresh random identifier for a new VM, in UUID text form.
    pub fn new_id() -> (r: String)
        ensures
            is_uuid_v4_text(r@),
    {
        random_uuid_text()
    }

    /// The image file of the `index`-th disk of the VM kept in `dir`.
    pub fn disk_file(dir: &str, index: usize) -> (r: String)
        ensures
            r@ == disk_file_path(dir@, index as nat),
    {
        let mut name = String::from_str("disk_");
        name.append(to_decimal(index as u64).as_str());
        let mut path = String::from_str(dir);
        push_path(&mut path, name.as_str());
        path
    }

    /// The cloud-init image of the VM kept in `dir`.
    pub fn cloudinit_file(dir: &str) -> (r: String)
        ensures
            r@ == cloudinit_drive(dir@).path,
    {
        let mut path = String::from_str(dir);
        push_path(&mut path, "cloudinit.iso");
        path
    }

    /// The VM's own copy of the UEFI variable store, in `dir`.
    pub fn uefi_vars_file(dir: &str) -> (r: String)
        ensures
            r@ == path_join(dir@, "uefi_vars.fd"@),
    {
        let mut path = String::from_str(dir);
        push_path(&mut path, "uefi_vars.fd");
        path
    }

    /// The socket QEMU answers commands on.
    pub fn get_socket_file(run_dir: &str, id: &str) -> (r: String)
        ensures
            r@ == run_file(run_dir@, id@, "socket"@),
    {
        run_path(run_dir, id, "socket")
    }

    /// The socket QEMU reports events on.
    pub fn get_events_file(run_dir: &str, id: &str) -> (r: String)
        ensures
            r@ == run_file(run_dir@, id@, "events"@),
    {
        run_path(run_dir, id, "events")
    }

    /// The pid file of the running VM.
    pub fn get_pid_file(run_dir: &str, id: &str) -> (r: String)
        ensures
            r@ == run_file(run_dir@, id@, "pidfile"@),
    {
        run_path(run_dir, id, "pidfile")
    }

    /// The directory that keeps this VM's files.
    pub fn get_dir(data_dir: &str, id: &str) -> (r: String)
        ensures
            r@ == vm_dir(data_dir@, id@),
    {
        let mut p = String::from_str(data_dir);
        push_path(&mut p, "vms");
        push_path(&mut p, id);
        p
    }

    /// The VM's copy of its cloud image.
    pub fn get_boot_file(&self, data_dir: &str) -> (r: String)
        ensures
            r@ == path_join(vm_dir(data_dir@, self.id@), "boot"@),
    {
        let mut p = VM::get_dir(data_dir, self.id.as_str());
        push_path(&mut p, "boot");
        p
    }

    /// The drive of the VM's copy of its cloud image, of `size` GiB when known.
    pub open spec fn boot_image_drive(&self, data_dir: Seq<char>, size: Option<u64>) -> DriveView {
        DriveView {
            path: path_join(vm_dir(data_dir, self.id@), "boot"@),
            interface: Interface::Virtio,
            media: Media::Disk,
            format: Format::Qcow2,
            read_only: false,
            unit: None,
            size,
        }
    }

    /// Adds the drive of the VM's copy of its cloud image (kept under
    /// `data_dir`, `size` GiB when known) unless the VM has an equal one.
    pub fn add_boot_drive(&mut self, data_dir: &str, size: Option<u64>)
        requires
            old(self).drives@.len() < usize::MAX,
        ensures
            drive_views(final(self).drives@) == if drive_views(old(self).drives@).contains(
                old(self).boot_image_drive(data_dir@, size),
            ) {
                drive_views(old(self).drives@)
            } else {
                drive_views(old(self).drives@).push(old(self).boot_image_drive(data_dir@, size))
            },
            final(self).id == old(self).id,
            final(self).name == old(self).name,
            final(self).boot_option == old(self).boot_option,
            final(self).os == old(self).os,
            final(self).arch == old(self).arch,
            final(self).vcpu == old(self).vcpu,
            final(self).memory == old(self).memory,
            final(self).networks == old(self).networks,
            final(self).remote_access == old(self).remote_access,
            final(self).fs == old(self).fs,
    {
        let d = Drive {
            path: self.get_boot_file(data_dir),
            interface: Interface::Virtio,
            media: Media::Disk,
            format: Format::Qcow2,
            read_only: false,
            unit: None,
            size,
        };
        let ghost dv = drive_view(d);
        let ghost all = drive_views(self.drives@);
        let mut found = false;
        let mut i: usize = 0;
        while i < self.drives.len()
            invariant
                i <= self.drives@.len(),
                all == drive_views(self.drives@),
                dv == drive_view(d),
                found == exists|j: int| 0 <= j < i && all[j] == dv,
            decreases self.drives@.len() - i,
        {
            let e = &self.drives[i];
            if str_equal(e.path.as_str(), d.path.as_str()) && e.interface == d.interface && e.media
                == d.media && e.format == d.format && e.read_only == d.read_only && e.unit
                == d.unit && e.size == d.size {
                assert(all[i as int] == dv);
                found = true;
            } else {
                assert(all[i as int] != dv);
            }
            i = i + 1;
        }
        assert(found == all.contains(dv));
        if !found {
            self.drives.push(d);
            assert(drive_views(self.drives@) =~= all.push(dv));
        }
    }

    /// The VNC password QEMU is given after it starts, if the VM has one.
    pub fn vnc_password(&self) -> (r: Option<String>)
        ensures
            match self.remote_access {
                Some(RemoteAccess::Vnc(v)) => match v.password {
                    Some(p) => r matches Some(q) && q@ == p@,
                    None => r is None,
                },
                _ => r is None,
            },
    {
        match &self.remote_access {
            Some(RemoteAccess::Vnc(v)) => match &v.password {
                Some(p) => Some(p.clone()),
                None => None,
            },
            _ => None,
        }
    }

    /// Whether the VM boots with UEFI firmware: one of its drives is a
    /// flash drive.
    pub fn has_uefi(&self) -> (r: bool)
        ensures
            r == exists|i: int| 0 <= i < self.drives@.len() && self.drives@[i].interface == Interface::Pflash,
    {
        let mut i: usize = 0;
        while i < self.drives.len()
            invariant
                i <= self.drives@.len(),
                forall|k: int| 0 <= k < i ==> self.drives@[k].interface != Interface::Pflash,
            decreases self.drives@.len() - i,
        {
            if self.drives[i].interface == Interface::Pflash {
                return true;
            }
            i = i + 1;
        }
        false
    }

    /// The firmware the VM boots with, as shown to the user.
    pub fn firmware_label(&self) -> (r: &'static str)
        ensures
            r@ == if exists|i: int| 0 <= i < self.drives@.len() && self.drives@[i].interface == Interface::Pflash {
                "UEFI"@
            } else {
                "BIOS"@
            },
    {
        if self.has_uefi() {
            "UEFI"
        } else {
            "BIOS"
        }
    }

    /// The drives that are disks: all but the firmware ones.
    pub fn disks(&self) -> (r: Vec<Drive>)
        ensures
            drive_views(r@) == keep_disks(drive_views(self.drives@)),
    {
        let ghost all = drive_views(self.drives@);
        let mut r: Vec<Drive> = Vec::new();
        let mut i: usize = 0;
        while i < self.drives.len()
            invariant
                i <= self.drives@.len(),
                all == drive_views(self.drives@),
                drive_views(r@) == keep_disks(all.take(i as int)),
            decreases self.drives@.len() - i,
        {
            assert(all.take(i + 1).drop_last() =~= all.take(i as int));
            if self.drives[i].interface != Interface::Pflash {
                let ghost before = r@;
                let d = self.drives[i].duplicate();
                r.push(d);
                assert(drive_views(r@) =~= drive_views(before).push(drive_view(d)));
            }
            i = i + 1;
        }
        assert(all.take(self.drives@.len() as int) =~= all);
        r
    }

    /// The VM that `data` describes, with the identifier `id`, kept under
    /// `data_dir`, on a host whose os-release identifier is `host_os`; `boot`
    /// is the size (GiB) and format of the boot file, when there is one.
    pub fn create(
        data: VMBuildData,
        id: String,
        data_dir: &str,
        host_os: Option<&str>,
        boot: Option<(u64, Format)>,
    ) -> (r: VM)
        requires
            data.boot_file is Some ==> boot is Some,
        ensures
            r.id@ == id@,
            r.name@ == data.name@,
            r.boot_option == data.boot_option,
            r.os == data.os,
            r.arch == data.arch,
            r.vcpu == data.vcpu,
            r.memory == data.memory,
            r.networks == data.networks,
            r.remote_access == data.remote_access,
            r.fs@.len() == 0,
            drive_views(r.drives@) == created_drives(
                vm_dir(data_dir@, id@),
                data.cloudinit is Some,
                uefi_code_for(data.enable_uefi, opt_str_view(host_os), data.arch),
                data.disks@,
                match (data.boot_file, boot) {
                    (Some(p), Some((size, format))) => Some((p@, size, format)),
                    _ => None,
                },
            ),
    {
        let dir = VM::get_dir(data_dir, id.as_str());
        let code: Option<String> = if data.enable_uefi {
            match get_uefi_file_path(host_os, data.arch) {
                Ok((c, _)) => Some(c),
                Err(_) => None,
            }
        } else {
            None
        };
        let code_ref: Option<&str> = match &code {
            Some(c) => Some(c.as_str()),
            None => None,
        };
        let boot_ref: Option<(&str, u64, Format)> = match &data.boot_file {
            Some(p) => {
                let (size, format) = boot.unwrap();
                Some((p.as_str(), size, format))
            },
            None => None,
        };
        let drives = VM::create_drives(
            dir.as_str(),
            data.cloudinit.is_some(),
            code_ref,
            &data.disks,
            boot_ref,
        );
        VM {
            id,
            name: data.name,
            boot_option: data.boot_option,
            os: data.os,
            arch: data.arch,
            vcpu: data.vcpu,
            memory: data.memory,
            drives,
            networks: data.networks,
            remote_access: data.remote_access,
            fs: Vec::new(),
        }
    }

    /// The drives of a new VM kept in `dir`: its cloud-init image when
    /// `cloudinit`, the UEFI code `uefi_code` and a variable store, the images
    /// of `disks`, and the boot file `boot` (path, size in GiB, format).
    pub fn create_drives(
        dir: &str,
        cloudinit: bool,
        uefi_code: Option<&str>,
        disks: &Vec<Disk>,
        boot: Option<(&str, u64, Format)>,
    ) -> (r: Vec<Drive>)
        ensures
            drive_views(r@) == created_drives(
                dir@,
                cloudinit,
                match uefi_code {
                    Some(c) => Some(c@),
                    None => None,
                },
                disks@,
                match boot {
                    Some((p, s, f)) => Some((p@, s, f)),
                    None => None,
                },
            ),
    {
        let mut drives: Vec<Drive> = Vec::new();
        if cloudinit {
            let mut path = String::from_str(dir);
            push_path(&mut path, "cloudinit.iso");
            drives.push(
                Drive {
                    path,
                    interface: Interface::Virtio,
                    media: Media::CdRom,
                    format: Format::Raw,
                    read_only: true,
                    unit: None,
                    size: None,
                },
            );
        }
        match uefi_code {
            Some(code) => {
                let mut vars = String::from_str(dir);
                push_path(&mut vars, "uefi_vars.fd");
                drives.push(
                    Drive {
                        path: String::from_str(code),
                        interface: Interface::Pflash,
                        media: Media::Disk,
                        format: Format::Raw,
                        read_only: true,
                        unit: Some(0),
                        size: None,
                    },
                );
                drives.push(
                    Drive {
                        path: vars,
                        interface: Interface::Pflash,
                        media: Media::Disk,
                        format: Format::Raw,
                        read_only: false,
                        unit: Some(1),
                        size: None,
                    },
                );
            },
            None => {},
        }
        let ghost head = drive_views(drives@);
        assert(head =~= (if cloudinit {
            seq![cloudinit_drive(dir@)]
        } else {
            Seq::<DriveView>::empty()
        }) + (match uefi_code {
            Some(code) => uefi_drives(code@, dir@),
            None => Seq::<DriveView>::empty(),
        }));
        let _n = disks.len();
        push_disk_drives(&mut drives, dir, disks, 0);
        match boot {
            Some((path, size, format)) => {
                let ghost before = drives@;
                let d = Drive {
                    path: String::from_str(path),
                    interface: Interface::Virtio,
                    media: if format == Format::Qcow2 {
                        Media::Disk
                    } else {
                        Media::CdRom
                    },
                    format,
                    read_only: format != Format::Qcow2,
                    unit: None,
                    size: Some(size),
                };
                drives.push(d);
                assert(drive_views(drives@) =~= drive_views(before).push(drive_view(d)));
            },
            None => {},
        }
        drives
    }

    /// Applies an edit: the new vCPU count and memory, the drives at the
    /// deleted paths dropped, the added disks attached after the remaining disks
    /// (numbered from their count) in `dir`, the new networks and remote access.
    pub fn apply_edit(&mut self, dir: &str, data: VMEditData)
        requires
            old(self).drives@.len() + data.added_disks@.len() <= usize::MAX,
        ensures
            final(self).vcpu == data.new_vcpu,
            final(self).memory == data.new_memory,
            drive_views(final(self).drives@) == without_paths(
                drive_views(old(self).drives@),
                data.deleted_disks@.map_values(|s: String| s@),
            ) + disk_drives(
                dir@,
                data.added_disks@,
                keep_disks(
                    without_paths(
                        drive_views(old(self).drives@),
                        data.deleted_disks@.map_values(|s: String| s@),
                    ),
                ).len(),
            ),
            final(self).networks == data.networks,
            final(self).remote_access == data.remote_access,
            final(self).id == old(self).id,
            final(self).name == old(self).name,
            final(self).boot_option == old(self).boot_option,
            final(self).os == old(self).os,
            final(self).arch == old(self).arch,
            final(self).fs == old(self).fs,
    {
        self.vcpu = data.new_vcpu;
        self.memory = data.new_memory;
        let ghost deleted = data.deleted_disks@.map_values(|s: String| s@);
        let ghost all = drive_views(self.drives@);
        let mut kept: Vec<Drive> = Vec::new();
        let mut i: usize = 0;
        while i < self.drives.len()
            invariant
                i <= self.drives@.len(),
                all == drive_views(self.drives@),
                deleted == data.deleted_disks@.map_values(|s: String| s@),
                drive_views(kept@) == without_paths(all.take(i as int), deleted),
                kept@.len() <= i,
            decreases self.drives@.len() - i,
        {
            assert(all.take(i + 1).drop_last() =~= all.take(i as int));
            if !contains_path(&data.deleted_disks, self.drives[i].path.as_str()) {
                let ghost before = kept@;
                let d = self.drives[i].duplicate();
                kept.push(d);
                assert(drive_views(kept@) =~= drive_views(before).push(drive_view(d)));
            }
            i = i + 1;
        }
        assert(all.take(self.drives@.len() as int) =~= all);
        self.drives = kept;
        let len = self.disks().len();
        proof {
            lemma_keep_disks_len(drive_views(self.drives@));
        }
        push_disk_drives(&mut self.drives, dir, &data.added_disks, len);
        self.remote_access = data.remote_access;
        self.networks = data.networks;
    }
}

/// After an edit, no drive left has a path marked for removal, and every
/// drive whose path was not marked stays.
pub proof fn lemma_deleted_disks_gone(ds: Seq<DriveView>, deleted: Seq<Seq<char>>)
    ensures
        forall|i: int|
            0 <= i < without_paths(ds, deleted).len() ==> !deleted.contains(
                #[trigger] without_paths(ds, deleted)[i].path,
            ),
        forall|d: DriveView|
            ds.contains(d) && !deleted.contains(d.path) ==> #[trigger] without_paths(
                ds,
                deleted,
            ).contains(d),
    decreases ds.len(),
{
    if ds.len() > 0 {
        let rest = ds.drop_last();
        lemma_deleted_disks_gone(rest, deleted);
        let w = without_paths(rest, deleted);
        assert forall|d: DriveView| ds.contains(d) && !deleted.contains(d.path) implies #[trigger] without_paths(
            ds,
            deleted,
        ).contains(d) by {
            let k = choose|k: int| 0 <= k < ds.len() && ds[k] == d;
            if k < ds.len() - 1 {
                assert(rest[k] == d);
                assert(rest.contains(d));
                assert(w.contains(d));
                let j = choose|j: int| 0 <= j < w.len() && w[j] == d;
                let r = without_paths(ds, deleted);
                if !deleted.contains(ds.last().path) {
                    assert(r == w.push(ds.last()));
                    assert(r[j] == d);
                } else {
                    assert(r == w);
                }
                assert(r[j] == d);
            } else {
                assert(without_paths(ds, deleted).last() == d);
            }
        }
    }
}

proof fn lemma_keep_disks_len(ds: Seq<DriveView>)
    ensures
        keep_disks(ds).len() <= ds.len(),
    decreases ds.len(),
{
    if ds.len() > 0 {
        lemma_keep_disks_len(ds.drop_last());
    }
}

/// The events shown for a VM: the last eight, or all of them when there are
/// fewer.
pub fn last_events(events: &Vec<String>) -> (r: Vec<String>)
    ensures
        r@ == if events@.len() < 8 {
            events@
        } else {
            events@.subrange(events@.len() - 8, events@.len() as int)
        },
{
    let start: usize = if events.len() < 8 {
        0
    } else {
        events.len() - 8
    };
    let mut r: Vec<String> = Vec::new();
    let mut i: usize = start;
    while i < events.len()
        invariant
            start <= i <= events@.len(),
            r@ == events@.subrange(start as int, i as int),
        decreases events@.len() - i,
    {
        r.push(events[i].clone());
        assert(r@ =~= events@.subrange(start as int, i + 1));
        i = i + 1;
    }
    assert(events@.subrange(0, events@.len() as int) =~= events@);
    r
}

} // verus!
