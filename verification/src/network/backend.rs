//! The single-interface network backends, attached as `net0`.
use vstd::prelude::*;
use vstd::string::*;

use crate::network::{forwards_string, user_forwards};
use crate::network::port_forwarding::PortMapping;
use crate::text::views;

verus! {

/// A backend for the one network interface `net0`.
#[derive(Debug, Clone, Copy, PartialEq, Eq, Structural)]
pub enum NetworkBackend {
    User,
    Passt,
}

impl Default for NetworkBackend {
    fn default() -> (r: Self)
        ensures
            r == NetworkBackend::User,
    {
        NetworkBackend::User
    }
}

/// The QEMU arguments for `net0` on backend `b`, with the forwarding rules of
/// `ms` and, for passt, the socket at `socket`. Without a socket, passt gets no
/// `-netdev` value.
pub open spec fn backend_args(
    b: NetworkBackend,
    ms: Seq<PortMapping>,
    socket: Option<Seq<char>>,
) -> Seq<Seq<char>> {
    let head = seq!["-device"@, "virtio-net-pci,netdev=net0"@, "-netdev"@];
    match b {
        NetworkBackend::User => if ms.len() == 0 {
            head.push("user,id=net0"@)
        } else {
            head.push("user,id=net0,"@ + user_forwards(ms))
        },
        NetworkBackend::Passt => match socket {
            Some(p) => head.push(
                "stream,id=net0,server=off,addr.type=unix,addr.path="@ + p + ","@ + user_forwards(
                    ms,
                ),
            ),
            None => head,
        },
    }
}

impl NetworkBackend {
    /// The QEMU arguments that attach `net0` through this backend.
    pub fn to_qemu_arg(&self, port_mappings: &Vec<PortMapping>, socket_path: Option<&str>) -> (r:
        Vec<String>)
        ensures
            views(r@) == backend_args(
                *self,
                port_mappings@,
                match socket_path {
                    Some(p) => Some(p@),
                    None => None,
                },
            ),
    {
        let mapping_arg = forwards_string(port_mappings, false);
        let mut args: Vec<String> = Vec::new();
        args.push(String::from_str("-device"));
        args.push(String::from_str("virtio-net-pci,netdev=net0"));
        args.push(String::from_str("-netdev"));
        match self {
            NetworkBackend::User => {
                if port_mappings.len() == 0 {
                    args.push(String::from_str("user,id=net0"));
                } else {
                    let mut a = String::from_str("user,id=net0,");
                    a.append(mapping_arg.as_str());
                    args.push(a);
                }
            },
            NetworkBackend::Passt => {
                match socket_path {
                    Some(path) => {
                        let mut a = String::from_str(
                            "stream,id=net0,server=off,addr.type=unix,addr.path=",
                        );
                        a.append(path);
                        a.append(",");
                        a.append(mapping_arg.as_str());
                        args.push(a);
                    },
                    None => {},
                }
            },
        }
        let ghost s = match socket_path {
            Some(p) => Some(p@),
            None => None,
        };
        assert(views(args@) =~= backend_args(*self, port_mappings@, s));
        args
    }
}

} // verus!
