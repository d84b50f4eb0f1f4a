//! Guest network interfaces and the QEMU arguments that attach them.
pub mod backend;
pub mod builder;
pub mod port_forwarding;

use vstd::prelude::*;
use vstd::string::*;

use crate::text::{str_equal, dec, hex_pad, join, to_decimal, to_hex_padded, views, join_strings};
use port_forwarding::{PortMapping, Protocol, protocol_lower_name};

verus! {

/// The emulated network card.
#[derive(Debug, Clone, Copy, PartialEq, Eq, Structural)]
pub enum Nic {
    Virtio,
    E1000,
    RTL8139,
}

impl Default for Nic {
    fn default() -> (r: Self)
        ensures
            r == Nic::Virtio,
    {
        Nic::Virtio
    }
}

/// How the guest's traffic reaches the host.
#[derive(Debug, Clone, Copy, PartialEq, Eq, Structural)]
pub enum NetworkBackend {
    User,
    Passt,
    Tap,
}

impl Default for NetworkBackend {
    fn default() -> (r: Self)
        ensures
            r == NetworkBackend::User,
    {
        NetworkBackend::User
    }
}

/// The name QEMU knows a card by.
pub open spec fn nic_name(n: Nic) -> Seq<char> {
    match n {
        Nic::Virtio => "virtio-net-pci"@,
        Nic::E1000 => "e1000"@,
        Nic::RTL8139 => "rtl8139"@,
    }
}

/// The display name of a backend.
pub open spec fn backend_name(b: NetworkBackend) -> Seq<char> {
    match b {
        NetworkBackend::User => "User"@,
        NetworkBackend::Passt => "Passt"@,
        NetworkBackend::Tap => "Tap"@,
    }
}

impl Nic {
    /// The name QEMU knows the card by.
    pub fn name(&self) -> (r: &'static str)
        ensures
            r@ == nic_name(*self),
    {
        match self {
            Nic::Virtio => "virtio-net-pci",
            Nic::E1000 => "e1000",
            Nic::RTL8139 => "rtl8139",
        }
    }
}

impl NetworkBackend {
    /// The display name (`User`, `Passt`, `Tap`).
    pub fn name(&self) -> (r: &'static str)
        ensures
            r@ == backend_name(*self),
    {
        match self {
            NetworkBackend::User => "User",
            NetworkBackend::Passt => "Passt",
            NetworkBackend::Tap => "Tap",
        }
    }
}

/// A network interface of a VM.
#[derive(Debug, Clone)]
pub struct Network {
    pub id: String,
    pub backend: NetworkBackend,
    pub nic: Nic,
    pub mac: Option<String>,
    pub port_mappings: Vec<PortMapping>,
}

/// The identifier a network gets from the number `n`: eight lower-case
/// hexadecimal digits.
pub open spec fn network_id(n: u32) -> Seq<char> {
    hex_pad(n as nat, 8, false)
}

/// A user-mode forwarding rule: `hostfwd=<proto>::<host>-:<guest>`.
pub open spec fn user_forward(m: PortMapping) -> Seq<char> {
    "hostfwd="@ + protocol_lower_name(m.protocol) + "::"@ + dec(m.host_port as nat) + "-:"@ + dec(
        m.guest_port as nat,
    )
}

/// A passt forwarding rule: `<proto>-ports=<host>:<guest>`.
pub open spec fn passt_forward(m: PortMapping) -> Seq<char> {
    (match m.protocol {
        Protocol::TCP => "tcp-ports"@,
        Protocol::UDP => "udp-ports"@,
    }) + "="@ + dec(m.host_port as nat) + ":"@ + dec(m.guest_port as nat)
}

/// The user-mode forwarding rules of `ms`, joined by commas.
pub open spec fn user_forwards(ms: Seq<PortMapping>) -> Seq<char> {
    join(ms.map_values(|m: PortMapping| user_forward(m)), ","@)
}

/// The passt forwarding rules of `ms`, joined by commas.
pub open spec fn passt_forwards(ms: Seq<PortMapping>) -> Seq<char> {
    join(ms.map_values(|m: PortMapping| passt_forward(m)), ","@)
}

/// The `-device` value that attaches the card of `n` to its backend.
pub open spec fn device_arg(n: Network) -> Seq<char> {
    let id = "net"@ + n.id@;
    match n.mac {
        Some(mac) => nic_name(n.nic) + ",netdev="@ + id + ",mac="@ + mac@,
        None => nic_name(n.nic) + ",netdev="@ + id,
    }
}

/// The `-netdev` value that sets up the backend of `n`.
pub open spec fn netdev_arg(n: Network) -> Seq<char> {
    let id = "net"@ + n.id@;
    match n.backend {
        NetworkBackend::Passt => if n.port_mappings@.len() == 0 {
            "passt,id="@ + id
        } else {
            "passt,id="@ + id + ","@ + passt_forwards(n.port_mappings@)
        },
        NetworkBackend::User => if n.port_mappings@.len() == 0 {
            "user,id="@ + id
        } else {
            "user,id="@ + id + ","@ + user_forwards(n.port_mappings@)
        },
        NetworkBackend::Tap => "tap,id="@ + id + ",ifname=tap"@ + id + ",script=no,downscript=no"@,
    }
}

/// The QEMU arguments that give a VM the network `n`.
pub open spec fn network_args(n: Network) -> Seq<Seq<char>> {
    seq!["-device"@, device_arg(n), "-netdev"@, netdev_arg(n)]
}

/// The text after an identifier in a QEMU option list: nothing, or the
/// next option after a comma.
pub open spec fn ends_option(rest: Seq<char>) -> bool {
    rest.len() == 0 || rest[0] == ','
}

/// The backend a `-netdev` value sets up, as QEMU names it.
pub open spec fn netdev_kind(b: NetworkBackend) -> Seq<char> {
    match b {
        NetworkBackend::User => "user"@,
        NetworkBackend::Passt => "passt"@,
        NetworkBackend::Tap => "tap"@,
    }
}

/// For every network, the card and its backend are tied by one identifier:
/// the `-device` value names the card and then `netdev=<id>`, and the
/// `-netdev` value names the backend and then `id=<id>`, the same `<id>`,
/// each ending the option (whatever the backend, with or without forwarding
/// rules or a MAC address). The identifier is `net` followed by the
/// network's own id.
pub proof fn lemma_device_and_backend_share_id(n: Network)
    ensures
        exists|r1: Seq<char>, r3: Seq<char>|
            #![trigger ends_option(r1), ends_option(r3)]
            {
                &&& network_args(n)[1] == nic_name(n.nic) + ",netdev="@ + ("net"@ + n.id@) + r1
                &&& network_args(n)[3] == netdev_kind(n.backend) + ",id="@ + ("net"@ + n.id@)
                    + r3
                &&& ends_option(r1)
                &&& ends_option(r3)
            },
{
    let id = "net"@ + n.id@;
    let r1 = match n.mac {
        Some(mac) => ",mac="@ + mac@,
        None => Seq::<char>::empty(),
    };
    let r3 = match n.backend {
        NetworkBackend::Passt => if n.port_mappings@.len() == 0 {
            Seq::<char>::empty()
        } else {
            ","@ + passt_forwards(n.port_mappings@)
        },
        NetworkBackend::User => if n.port_mappings@.len() == 0 {
            Seq::<char>::empty()
        } else {
            ","@ + user_forwards(n.port_mappings@)
        },
        NetworkBackend::Tap => ",ifname=tap"@ + id + ",script=no,downscript=no"@,
    };
    reveal_strlit(",");
    reveal_strlit(",mac=");
    reveal_strlit(",ifname=tap");
    reveal_strlit("passt,id=");
    reveal_strlit("user,id=");
    reveal_strlit("tap,id=");
    reveal_strlit(",id=");
    reveal_strlit("passt");
    reveal_strlit("user");
    reveal_strlit("tap");
    assert(network_args(n)[1] =~= nic_name(n.nic) + ",netdev="@ + id + r1);
    assert(network_args(n)[3] =~= netdev_kind(n.backend) + ",id="@ + id + r3);
    assert(ends_option(r1) && ends_option(r3));
}

/// A number drawn by `rand::random::<u32>()`; nothing is claimed of it.
#[verifier::external_body]
fn random_u32() -> u32 {
    rand::random::<u32>()
}

/// The rendering of one forwarding rule, in the user or the passt syntax.
fn forward_string(m: PortMapping, passt: bool) -> (r: String)
    ensures
        r@ == (if passt {
            passt_forward(m)
        } else {
            user_forward(m)
        }),
{
    let mut s = String::new();
    if passt {
        match m.protocol {
            Protocol::TCP => s.append("tcp-ports"),
            Protocol::UDP => s.append("udp-ports"),
        }
        s.append("=");
        s.append(to_decimal(m.host_port as u64).as_str());
        s.append(":");
        s.append(to_decimal(m.guest_port as u64).as_str());
    } else {
        s.append("hostfwd=");
        s.append(m.protocol.lower_name());
        s.append("::");
        s.append(to_decimal(m.host_port as u64).as_str());
        s.append("-:");
        s.append(to_decimal(m.guest_port as u64).as_str());
    }
    s
}

/// The forwarding rules of `ms` joined by commas, in the user or the passt syntax.
pub fn forwards_string(ms: &Vec<PortMapping>, passt: bool) -> (r: String)
    ensures
        r@ == (if passt {
            passt_forwards(ms@)
        } else {
            user_forwards(ms@)
        }),
{
    let mut parts: Vec<String> = Vec::new();
    let mut i: usize = 0;
    while i < ms.len()
        invariant
            i <= ms@.len(),
            parts@.len() == i,
            forall|j: int|
                0 <= j < i ==> (#[trigger] parts@[j])@ == (if passt {
                    passt_forward(ms@[j])
                } else {
                    user_forward(ms@[j])
                }),
        decreases ms@.len() - i,
    {
        parts.push(forward_string(ms[i], passt));
        i = i + 1;
    }
    let r = join_strings(&parts, ",");
    proof {
        if passt {
            assert(views(parts@) =~= ms@.map_values(|m: PortMapping| passt_forward(m)));
        } else {
            assert(views(parts@) =~= ms@.map_values(|m: PortMapping| user_forward(m)));
        }
    }
    r
}

/// What a network is, as plain values.
pub struct NetworkView {
    pub id: Seq<char>,
    pub backend: NetworkBackend,
    pub nic: Nic,
    pub mac: Option<Seq<char>>,
    pub port_mappings: Seq<PortMapping>,
}

impl View for Network {
    type V = NetworkView;

    open spec fn view(&self) -> NetworkView {
        NetworkView {
            id: self.id@,
            backend: self.backend,
            nic: self.nic,
            mac: match self.mac {
                Some(m) => Some(m@),
                None => None,
            },
            port_mappings: self.port_mappings@,
        }
    }
}

/// The views of a list of networks.
pub open spec fn network_views(ns: Seq<Network>) -> Seq<NetworkView> {
    ns.map_values(|n: Network| n@)
}

/// `i` is the first network of `vs` whose identifier is `id`.
pub open spec fn is_first_with_id(vs: Seq<NetworkView>, id: Seq<char>, i: int) -> bool {
    &&& 0 <= i < vs.len()
    &&& vs[i].id == id
    &&& forall|j: int| 0 <= j < i ==> vs[j].id != id
}

/// The first network of `vs` whose identifier is `id`, if any.
pub open spec fn first_with_id(vs: Seq<NetworkView>, id: Seq<char>) -> Option<int> {
    if exists|i: int| is_first_with_id(vs, id, i) {
        Some(choose|i: int| is_first_with_id(vs, id, i))
    } else {
        None
    }
}

/// The position of the first network of `ns` whose identifier is `id`.
pub fn find_network(ns: &Vec<Network>, id: &str) -> (r: Option<usize>)
    ensures
        r == match first_with_id(network_views(ns@), id@) {
            Some(i) => Some(i as usize),
            None => None::<usize>,
        },
        r matches Some(i) ==> is_first_with_id(network_views(ns@), id@, i as int),
{
    let ghost vs = network_views(ns@);
    let mut i: usize = 0;
    while i < ns.len()
        invariant
            i <= ns@.len(),
            vs == network_views(ns@),
            forall|j: int| 0 <= j < i ==> vs[j].id != id@,
        decreases ns@.len() - i,
    {
        if str_equal(ns[i].id.as_str(), id) {
            assert(is_first_with_id(vs, id@, i as int));
            proof {
                let k = choose|k: int| is_first_with_id(vs, id@, k);
                assert(k == i as int) by {
                    if k < i {
                        assert(vs[k].id != id@);
                    } else if k > i {
                        assert(vs[i as int].id != id@);
                    }
                }
            }
            return Some(i);
        }
        i = i + 1;
    }
    assert(!exists|k: int| is_first_with_id(vs, id@, k));
    None
}

/// `v` with its forwarding rules replaced by `ms`.
pub open spec fn with_mappings(v: NetworkView, ms: Seq<PortMapping>) -> NetworkView {
    NetworkView { id: v.id, backend: v.backend, nic: v.nic, mac: v.mac, port_mappings: ms }
}

/// `vs` with the rule `m` added to the first network whose identifier is
/// `id` (unchanged when there is none).
pub open spec fn with_mapping_added(vs: Seq<NetworkView>, id: Seq<char>, m: PortMapping) -> Seq<
    NetworkView,
> {
    match first_with_id(vs, id) {
        Some(i) => vs.update(i, with_mappings(vs[i], vs[i].port_mappings.push(m))),
        None => vs,
    }
}

/// The rules of `ms` other than `m`.
pub open spec fn without_mapping(ms: Seq<PortMapping>, m: PortMapping) -> Seq<PortMapping> {
    ms.filter(|x: PortMapping| x != m)
}

/// `vs` with every rule equal to `m` taken out of the first network whose
/// identifier is `id` (unchanged when there is none).
pub open spec fn with_mapping_removed(vs: Seq<NetworkView>, id: Seq<char>, m: PortMapping) -> Seq<
    NetworkView,
> {
    match first_with_id(vs, id) {
        Some(i) => vs.update(i, with_mappings(vs[i], without_mapping(vs[i].port_mappings, m))),
        None => vs,
    }
}

/// A list without `m` keeps all its rules when the rules equal to `m` are
/// taken out.
proof fn lemma_without_absent(ms: Seq<PortMapping>, m: PortMapping)
    requires
        !ms.contains(m),
    ensures
        without_mapping(ms, m) == ms,
    decreases ms.len(),
{
    reveal(Seq::filter);
    if ms.len() > 0 {
        assert(!ms.drop_last().contains(m)) by {
            if ms.drop_last().contains(m) {
                let k = choose|k: int| 0 <= k < ms.drop_last().len() && ms.drop_last()[k] == m;
                assert(ms[k] == m);
            }
        }
        lemma_without_absent(ms.drop_last(), m);
        assert(ms.last() != m) by {
            if ms.last() == m {
                assert(ms[ms.len() - 1] == m);
            }
        }
        assert(ms.drop_last().push(ms.last()) =~= ms);
    }
}

/// Changing the rules of a network keeps which network comes first with an
/// identifier.
proof fn lemma_first_with_id_update(vs: Seq<NetworkView>, id: Seq<char>, i: int, ms: Seq<PortMapping>)
    requires
        0 <= i < vs.len(),
    ensures
        first_with_id(vs.update(i, with_mappings(vs[i], ms)), id) == first_with_id(vs, id),
{
    let ws = vs.update(i, with_mappings(vs[i], ms));
    assert forall|k: int| is_first_with_id(ws, id, k) <==> is_first_with_id(vs, id, k) by {
        if 0 <= k < vs.len() {
            assert(ws[k].id == vs[k].id);
            assert(forall|j: int| 0 <= j < k ==> ws[j].id == vs[j].id);
        }
    }
    if exists|k: int| is_first_with_id(vs, id, k) {
        let k = choose|k: int| is_first_with_id(vs, id, k);
        assert(is_first_with_id(ws, id, k));
        let k2 = choose|k: int| is_first_with_id(ws, id, k);
        assert(k2 == k) by {
            if k2 < k {
                assert(vs[k2].id != id);
            } else if k2 > k {
                assert(ws[k].id != id);
            }
        }
    }
}

/// Adding a rule to a network that does not hold it, then taking it out,
/// gives back the networks as they were.
pub proof fn lemma_mapping_add_remove(vs: Seq<NetworkView>, id: Seq<char>, m: PortMapping)
    requires
        first_with_id(vs, id) matches Some(i) ==> !vs[i].port_mappings.contains(m),
    ensures
        with_mapping_removed(with_mapping_added(vs, id, m), id, m) == vs,
{
    if let Some(i) = first_with_id(vs, id) {
        let k = choose|k: int| is_first_with_id(vs, id, k);
        assert(is_first_with_id(vs, id, i));
        let ms = vs[i].port_mappings;
        let ws = vs.update(i, with_mappings(vs[i], ms.push(m)));
        lemma_first_with_id_update(vs, id, i, ms.push(m));
        reveal(Seq::filter);
        assert(ms.push(m).drop_last() =~= ms);
        lemma_without_absent(ms, m);
        assert(without_mapping(ms.push(m), m) == without_mapping(ms, m));
        assert(ws.update(i, with_mappings(ws[i], without_mapping(ws[i].port_mappings, m))) =~= vs);
    }
}

fn mappings_without(ms: &Vec<PortMapping>, m: PortMapping) -> (r: Vec<PortMapping>)
    ensures
        r@ == without_mapping(ms@, m),
{
    let mut out: Vec<PortMapping> = Vec::new();
    let mut i: usize = 0;
    while i < ms.len()
        invariant
            i <= ms@.len(),
            out@ == without_mapping(ms@.take(i as int), m),
        decreases ms@.len() - i,
    {
        let x = ms[i];
        proof {
            reveal(Seq::filter);
            assert(ms@.take(i + 1).drop_last() =~= ms@.take(i as int));
        }
        if x != m {
            out.push(x);
        }
        i = i + 1;
    }
    assert(ms@.take(ms@.len() as int) =~= ms@);
    out
}

/// Adds the rule `m` to the first network of `ns` whose identifier is `id`.
pub fn add_mapping(ns: &mut Vec<Network>, id: &str, m: PortMapping)
    ensures
        network_views(final(ns)@) == with_mapping_added(network_views(old(ns)@), id@, m),
{
    match find_network(ns, id) {
        Some(i) => {
            let mut n = ns[i].duplicate();
            n.port_mappings.push(m);
            let ghost before = ns@;
            ns.set(i, n);
            assert(network_views(ns@) =~= network_views(before).update(
                i as int,
                with_mappings(network_views(before)[i as int], before[i as int].port_mappings@.push(m)),
            ));
        },
        None => {},
    }
}

/// Takes every rule equal to `m` out of the first network of `ns` whose
/// identifier is `id`.
pub fn remove_mapping(ns: &mut Vec<Network>, id: &str, m: PortMapping)
    ensures
        network_views(final(ns)@) == with_mapping_removed(network_views(old(ns)@), id@, m),
{
    match find_network(ns, id) {
        Some(i) => {
            let mut n = ns[i].duplicate();
            n.port_mappings = mappings_without(&ns[i].port_mappings, m);
            let ghost before = ns@;
            ns.set(i, n);
            assert(network_views(ns@) =~= network_views(before).update(
                i as int,
                with_mappings(
                    network_views(before)[i as int],
                    without_mapping(before[i as int].port_mappings@, m),
                ),
            ));
        },
        None => {},
    }
}

/// Whether two networks are the same in every field.
pub fn network_eq(a: &Network, b: &Network) -> (r: bool)
    ensures
        r == (a@ == b@),
{
    if !str_equal(a.id.as_str(), b.id.as_str()) || a.backend != b.backend || a.nic != b.nic {
        return false;
    }
    let mac_same = match (&a.mac, &b.mac) {
        (Some(x), Some(y)) => str_equal(x.as_str(), y.as_str()),
        (None, None) => true,
        _ => false,
    };
    if !mac_same {
        return false;
    }
    if a.port_mappings.len() != b.port_mappings.len() {
        return false;
    }
    let mut i: usize = 0;
    while i < a.port_mappings.len()
        invariant
            i <= a.port_mappings@.len(),
            a.port_mappings@.len() == b.port_mappings@.len(),
            forall|j: int| 0 <= j < i ==> a.port_mappings@[j] == b.port_mappings@[j],
        decreases a.port_mappings@.len() - i,
    {
        if a.port_mappings[i] != b.port_mappings[i] {
            return false;
        }
        i = i + 1;
    }
    assert(a.port_mappings@ =~= b.port_mappings@);
    true
}

/// Whether `ns` holds a network equal to `n` in every field.
pub fn contains_network(ns: &Vec<Network>, n: &Network) -> (r: bool)
    ensures
        r == network_views(ns@).contains(n@),
{
    let ghost vs = network_views(ns@);
    let mut i: usize = 0;
    while i < ns.len()
        invariant
            i <= ns@.len(),
            vs == network_views(ns@),
            forall|j: int| 0 <= j < i ==> vs[j] != n@,
        decreases ns@.len() - i,
    {
        if network_eq(&ns[i], n) {
            assert(vs[i as int] == n@);
            return true;
        }
        i = i + 1;
    }
    false
}

/// `vs` without the networks equal to `v`.
pub open spec fn networks_without(vs: Seq<NetworkView>, v: NetworkView) -> Seq<NetworkView> {
    vs.filter(|x: NetworkView| x != v)
}

/// Keeps the networks of `ns` that differ from `n`.
pub fn retain_networks(ns: &mut Vec<Network>, n: &Network)
    ensures
        network_views(final(ns)@) == networks_without(network_views(old(ns)@), n@),
{
    let mut out: Vec<Network> = Vec::new();
    let ghost vs = network_views(ns@);
    let mut i: usize = 0;
    while i < ns.len()
        invariant
            i <= ns@.len(),
            vs == network_views(ns@),
            network_views(out@) == networks_without(vs.take(i as int), n@),
        decreases ns@.len() - i,
    {
        proof {
            reveal(Seq::filter);
            assert(vs.take(i + 1).drop_last() =~= vs.take(i as int));
        }
        if !network_eq(&ns[i], n) {
            let ghost before = out@;
            out.push(ns[i].duplicate());
            assert(network_views(out@) =~= network_views(before).push(vs[i as int]));
        }
        i = i + 1;
    }
    assert(vs.take(ns@.len() as int) =~= vs);
    *ns = out;
}

/// A copy of a list of networks.
pub fn duplicate_networks(ns: &Vec<Network>) -> (r: Vec<Network>)
    ensures
        network_views(r@) == network_views(ns@),
{
    let mut out: Vec<Network> = Vec::new();
    let mut i: usize = 0;
    while i < ns.len()
        invariant
            i <= ns@.len(),
            network_views(out@) == network_views(ns@.take(i as int)),
        decreases ns@.len() - i,
    {
        let ghost before = out@;
        out.push(ns[i].duplicate());
        assert(network_views(out@) =~= network_views(before).push(ns@[i as int]@));
        i = i + 1;
        assert(network_views(ns@.take(i as int)) =~= network_views(ns@.take(i - 1)).push(
            ns@[i - 1]@,
        ));
    }
    assert(ns@.take(ns@.len() as int) =~= ns@);
    out
}

impl Network {
    /// A copy of this network.
    pub fn duplicate(&self) -> (r: Network)
        ensures
            r@ == self@,
    {
        let mac = match &self.mac {
            Some(m) => Some(m.clone()),
            None => None,
        };
        let mut ms: Vec<PortMapping> = Vec::new();
        let mut i: usize = 0;
        while i < self.port_mappings.len()
            invariant
                i <= self.port_mappings@.len(),
                ms@ == self.port_mappings@.take(i as int),
            decreases self.port_mappings@.len() - i,
        {
            ms.push(self.port_mappings[i]);
            i = i + 1;
            assert(ms@ =~= self.port_mappings@.take(i as int));
        }
        assert(self.port_mappings@.take(i as int) =~= self.port_mappings@);
        Network { id: self.id.clone(), backend: self.backend, nic: self.nic, mac, port_mappings: ms }
    }

    /// A network whose identifier is drawn at random.
    pub fn new(
        backend: NetworkBackend,
        nic: Nic,
        port_mappings: Vec<PortMapping>,
        mac: Option<String>,
    ) -> (r: Network)
        ensures
            exists|n: u32| r.id@ == network_id(n),
            r.backend == backend,
            r.nic == nic,
            r.port_mappings == port_mappings,
            r.mac == mac,
    {
        let n = random_u32();
        Network::with_id_number(n, backend, nic, port_mappings, mac)
    }

    /// A network whose identifier is the number `n`, written as eight
    /// lower-case hexadecimal digits.
    pub fn with_id_number(
        n: u32,
        backend: NetworkBackend,
        nic: Nic,
        port_mappings: Vec<PortMapping>,
        mac: Option<String>,
    ) -> (r: Network)
        ensures
            r.id@ == network_id(n),
            r.backend == backend,
            r.nic == nic,
            r.port_mappings == port_mappings,
            r.mac == mac,
    {
        Network { id: to_hex_padded(n as u64, 8, false), backend, nic, port_mappings, mac }
    }

    /// A user-mode network with a virtio card, no forwarding and a random identifier.
    pub fn default() -> (r: Network)
        ensures
            exists|n: u32| r.id@ == network_id(n),
            r.backend == NetworkBackend::User,
            r.nic == Nic::Virtio,
            r.port_mappings@.len() == 0,
            r.mac is None,
    {
        Network::new(NetworkBackend::User, Nic::Virtio, Vec::new(), None)
    }

    /// The QEMU arguments that give a VM this network.
    pub fn to_qemu_arg(&self) -> (r: Vec<String>)
        ensures
            views(r@) == network_args(*self),
    {
        let mut id = String::from_str("net");
        id.append(self.id.as_str());
        let mut device = String::from_str(self.nic.name());
        device.append(",netdev=");
        device.append(id.as_str());
        match &self.mac {
            Some(mac) => {
                device.append(",mac=");
                device.append(mac.as_str());
            },
            None => {},
        }
        let mut netdev = String::new();
        match self.backend {
            NetworkBackend::Passt => {
                netdev.append("passt,id=");
                netdev.append(id.as_str());
                if self.port_mappings.len() != 0 {
                    netdev.append(",");
                    netdev.append(forwards_string(&self.port_mappings, true).as_str());
                }
            },
            NetworkBackend::User => {
                netdev.append("user,id=");
                netdev.append(id.as_str());
                if self.port_mappings.len() != 0 {
                    netdev.append(",");
                    netdev.append(forwards_string(&self.port_mappings, false).as_str());
                }
            },
            NetworkBackend::Tap => {
                netdev.append("tap,id=");
                netdev.append(id.as_str());
                netdev.append(",ifname=tap");
                netdev.append(id.as_str());
                netdev.append(",script=no,downscript=no");
            },
        }
        let mut args: Vec<String> = Vec::new();
        args.push(String::from_str("-device"));
        args.push(device);
        args.push(String::from_str("-netdev"));
        args.push(netdev);
        assert(views(args@) =~= network_args(*self));
        args
    }
}

} // verus!
