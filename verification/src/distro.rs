//! Linux distributions whose cloud images a VM can boot, and where their
//! images come from and are kept.
pub mod debian;
pub mod ubuntu;

use vstd::prelude::*;
use vstd::string::*;

use crate::arch::{Arch, arch_lower_name};
use crate::text::{find_char, find_char_in, lemma_find_char, path_join, push_path};
use debian::{DebianRelease, debian_lower_name, debian_url};
use ubuntu::{UbuntuRelease, ubuntu_lower_name, ubuntu_url};

verus! {

/// A distribution, with its release where it has several.
#[derive(Debug, Clone, Copy, PartialEq, Eq, Structural)]
pub enum LinuxDistro {
    ArchLinux,
    Debian(DebianRelease),
    Ubuntu(UbuntuRelease),
}

impl Default for LinuxDistro {
    fn default() -> (r: Self)
        ensures
            r == LinuxDistro::Debian(DebianRelease::Trixie),
    {
        LinuxDistro::Debian(DebianRelease::Trixie)
    }
}

/// The display name of a distribution.
pub open spec fn distro_name(d: LinuxDistro) -> Seq<char> {
    match d {
        LinuxDistro::ArchLinux => "Arch Linux (btw)"@,
        LinuxDistro::Debian(_) => "Debian"@,
        LinuxDistro::Ubuntu(_) => "Ubuntu"@,
    }
}

/// The name of the file that holds the cloud image of `d` for `arch`.
pub open spec fn image_file_name(d: LinuxDistro, arch: Arch) -> Seq<char> {
    match d {
        LinuxDistro::Debian(r) => "debian-"@ + debian_lower_name(r) + "-"@ + arch_lower_name(arch)
            + ".qcow2"@,
        LinuxDistro::Ubuntu(r) => "ubuntu-"@ + ubuntu_lower_name(r) + "-"@ + arch_lower_name(arch)
            + ".qcow2"@,
        LinuxDistro::ArchLinux => "arch.qcow2"@,
    }
}

/// Where the cloud image of `d` for `arch` is kept under the data directory.
pub open spec fn image_file_path(d: LinuxDistro, data_dir: Seq<char>, arch: Arch) -> Seq<char> {
    path_join(path_join(data_dir, "storage"@), image_file_name(d, arch))
}

proof fn lemma_image_file_names_differ(d1: LinuxDistro, a1: Arch, d2: LinuxDistro, a2: Arch)
    requires
        d1 != d2 || (a1 != a2 && d1 != LinuxDistro::ArchLinux),
    ensures
        image_file_name(d1, a1) != image_file_name(d2, a2),
{
    reveal_strlit("debian-");
    reveal_strlit("ubuntu-");
    reveal_strlit("arch.qcow2");
    reveal_strlit("-");
    reveal_strlit(".qcow2");
    reveal_strlit("trixie");
    reveal_strlit("bookworm");
    reveal_strlit("forky");
    reveal_strlit("resolute");
    reveal_strlit("noble");
    reveal_strlit("jammy");
    reveal_strlit("x86_64");
    reveal_strlit("aarch64");
    reveal_strlit("riscv64");
    let n1 = image_file_name(d1, a1);
    let n2 = image_file_name(d2, a2);
    match (d1, d2) {
        (LinuxDistro::Debian(r1), LinuxDistro::Debian(r2)) => {
            if r1 != r2 {
                assert(n1[7] != n2[7]);
            } else {
                let k: int = 8 + debian_lower_name(r1).len() as int;
                assert(n1[k] != n2[k]);
            }
        },
        (LinuxDistro::Ubuntu(r1), LinuxDistro::Ubuntu(r2)) => {
            if r1 != r2 {
                assert(n1[7] != n2[7]);
            } else {
                let k: int = 8 + ubuntu_lower_name(r1).len() as int;
                assert(n1[k] != n2[k]);
            }
        },
        _ => {
            assert(n1[0] != n2[0]);
        },
    }
}

/// Each image has a file of its own: two distributions, two releases, or two
/// architectures of one release never share a cloud image file, under any
/// data directory. Arch Linux is the one exception, as its single image
/// (for x86-64) is kept under one name whatever the architecture asked.
pub proof fn lemma_image_file_paths_distinct(
    d1: LinuxDistro,
    a1: Arch,
    d2: LinuxDistro,
    a2: Arch,
    data_dir: Seq<char>,
)
    requires
        d1 != d2 || (a1 != a2 && d1 != LinuxDistro::ArchLinux),
    ensures
        image_file_path(d1, data_dir, a1) != image_file_path(d2, data_dir, a2),
{
    lemma_image_file_names_differ(d1, a1, d2, a2);
    let base = path_join(data_dir, "storage"@);
    let n1 = image_file_name(d1, a1);
    let n2 = image_file_name(d2, a2);
    let p1 = image_file_path(d1, data_dir, a1);
    let p2 = image_file_path(d2, data_dir, a2);
    let b = if base.len() == 0 || base.last() == '/' {
        base
    } else {
        base + seq!['/']
    };
    assert(p1 == b + n1);
    assert(p2 == b + n2);
    if p1 == p2 {
        assert(n1 =~= p1.subrange(b.len() as int, p1.len() as int));
        assert(n2 =~= p2.subrange(b.len() as int, p2.len() as int));
    }
}

/// Where the cloud image of `d` for `arch` is downloaded from.
pub open spec fn image_url(d: LinuxDistro, arch: Arch) -> Seq<char> {
    match d {
        LinuxDistro::Debian(r) => debian_url(r, arch),
        LinuxDistro::Ubuntu(r) => ubuntu_url(r, arch),
        LinuxDistro::ArchLinux => "https://geo.mirror.pkgbuild.com/images/latest/Arch-Linux-x86_64-cloudimg.qcow2"@,
    }
}

/// The download progress reported after `received` of `total` bytes: the
/// percentage, kept to its lowest byte; none while the total is unknown (zero).
pub open spec fn download_rate(received: nat, total: nat) -> Option<u8> {
    if total == 0 {
        None
    } else {
        Some(((received * 100 / total) % 256) as u8)
    }
}

/// `line` without the one `\r` that ends it, if it ends with one.
pub open spec fn strip_cr(line: Seq<char>) -> Seq<char> {
    if line.len() > 0 && line.last() == '\r' {
        line.drop_last()
    } else {
        line
    }
}

/// The first line of `s`, as `str::lines` yields it.
pub open spec fn first_line(s: Seq<char>) -> Seq<char> {
    match find_char(s, '\n') {
        Some(k) => strip_cr(s.take(k as int)),
        None => s,
    }
}

/// What follows the first line of `s` and its line feed.
pub open spec fn after_first_line(s: Seq<char>) -> Seq<char> {
    match find_char(s, '\n') {
        Some(k) => s.skip(k + 1int),
        None => Seq::empty(),
    }
}

/// The value of an os-release line that begins with `ID`: what follows its
/// first `=`.
pub open spec fn id_line_value(line: Seq<char>) -> Option<Seq<char>> {
    if line.len() >= 2 && line[0] == 'I' && line[1] == 'D' {
        match find_char(line, '=') {
            Some(k) => Some(line.skip(k + 1int)),
            None => None,
        }
    } else {
        None
    }
}

/// The operating system identifier an os-release text gives: the value of the
/// first line that begins with `ID` and holds a `=`.
pub open spec fn os_release_id(s: Seq<char>) -> Option<Seq<char>>
    decreases s.len(),
{
    if s.len() == 0 {
        None
    } else {
        match id_line_value(first_line(s)) {
            Some(v) => Some(v),
            None => {
                proof {
                    lemma_find_char(s, '\n');
                }
                os_release_id(after_first_line(s))
            },
        }
    }
}

impl LinuxDistro {
    /// The display name (`Arch Linux (btw)`, `Debian`, `Ubuntu`).
    pub fn name(&self) -> (r: &'static str)
        ensures
            r@ == distro_name(*self),
    {
        match self {
            LinuxDistro::ArchLinux => "Arch Linux (btw)",
            LinuxDistro::Debian(_) => "Debian",
            LinuxDistro::Ubuntu(_) => "Ubuntu",
        }
    }

    /// The path of the file that keeps this distribution's cloud image for
    /// `arch`, under the data directory `data_dir`.
    pub fn get_file_path(&self, data_dir: &str, arch: Arch) -> (r: String)
        ensures
            r@ == image_file_path(*self, data_dir@, arch),
    {
        let mut path = String::from_str(data_dir);
        push_path(&mut path, "storage");
        let mut name = String::new();
        match self {
            LinuxDistro::Debian(release) => {
                name.append("debian-");
                name.append(release.lower_name());
                name.append("-");
                name.append(arch.lower_name());
                name.append(".qcow2");
            },
            LinuxDistro::Ubuntu(release) => {
                name.append("ubuntu-");
                name.append(release.lower_name());
                name.append("-");
                name.append(arch.lower_name());
                name.append(".qcow2");
            },
            LinuxDistro::ArchLinux => {
                name.append("arch.qcow2");
            },
        }
        push_path(&mut path, name.as_str());
        path
    }

    /// Where this distribution's cloud image for `arch` is downloaded from.
    pub fn download_url(&self, arch: Arch) -> (r: String)
        ensures
            r@ == image_url(*self, arch),
    {
        match self {
            LinuxDistro::Debian(release) => release.get_url(arch),
            LinuxDistro::Ubuntu(release) => release.get_url(arch),
            LinuxDistro::ArchLinux => String::from_str(
                "https://geo.mirror.pkgbuild.com/images/latest/Arch-Linux-x86_64-cloudimg.qcow2",
            ),
        }
    }

    /// The progress a download reports after `received` of `total` bytes.
    pub fn download_progress(received: usize, total: usize) -> (r: Option<u8>)
        requires
            received * 100 <= usize::MAX,
        ensures
            r == download_rate(received as nat, total as nat),
    {
        if total == 0 {
            None
        } else {
            let rate = received * 100 / total;
            Some((rate % 256) as u8)
        }
    }

    /// Reads the operating system identifier from the text of an os-release
    /// file.
    pub fn parse_os_release(content: &str) -> (r: Option<String>)
        ensures
            r matches Some(v) ==> os_release_id(content@) == Some(v@),
            r is None ==> os_release_id(content@) is None,
    {
        let n = content.unicode_len();
        let mut pos: usize = 0;
        assert(content@.skip(0) =~= content@);
        while pos < n
            invariant
                pos <= n,
                n == content@.len(),
                os_release_id(content@) == os_release_id(content@.skip(pos as int)),
            decreases n - pos,
        {
            let ghost rest = content@.skip(pos as int);
            assert(content@.subrange(pos as int, n as int) =~= rest);
            proof {
                lemma_find_char(rest, '\n');
            }
            let nl = find_char_in(content, '\n', pos, n);
            let line_end: usize;
            let next: usize;
            match nl {
                Some(k) => {
                    line_end = pos + k;
                    next = pos + k + 1;
                },
                None => {
                    line_end = n;
                    next = n;
                },
            }
            let mut end = line_end;
            if nl.is_some() && line_end > pos && content.get_char(line_end - 1) == '\r' {
                end = line_end - 1;
            }
            let ghost line = content@.subrange(pos as int, end as int);
            assert(line =~= first_line(rest));
            if end - pos >= 2 && content.get_char(pos) == 'I' && content.get_char(pos + 1) == 'D' {
                proof {
                    lemma_find_char(line, '=');
                }
                let eq = find_char_in(content, '=', pos, end);
                match eq {
                    Some(k) => {
                        let v = content.substring_char(pos + k + 1, end);
                        assert(v@ =~= line.skip(k + 1));
                        return Some(String::from_str(v));
                    },
                    None => {},
                }
            }
            assert(after_first_line(rest) =~= content@.skip(next as int));
            pos = next;
        }
        None
    }
}

} // verus!
