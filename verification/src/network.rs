//! Network interfaces: which addresses take part in discovery, their broadcast
//! addresses, and which interfaces are virtual.

use vstd::prelude::*;
use vstd::string::*;
use crate::codec::{lowercase, spec_lowercase};
use crate::text::{chars_of, contains_chars, contains_seq, decimal, push_decimal, push_str, string_of};

verus! {

/// An IPv4 interface of this machine.
#[derive(Clone, Debug)]
pub struct NetworkInterface {
    pub name: String,
    pub ip: String,
    pub netmask: String,
    pub broadcast: String,
    pub is_loopback: bool,
    pub is_virtual: bool,
}

impl NetworkInterface {
    /// An identical copy of this interface.
    pub fn duplicate(&self) -> (r: NetworkInterface)
        ensures
            r == *self,
    {
        NetworkInterface {
            name: self.name.clone(),
            ip: self.ip.clone(),
            netmask: self.netmask.clone(),
            broadcast: self.broadcast.clone(),
            is_loopback: self.is_loopback,
            is_virtual: self.is_virtual,
        }
    }
}

/// An interface as the system lists it: its name and, for IPv4, address and netmask
/// (as 32-bit numbers, most significant octet first).
pub struct RawInterface {
    pub name: String,
    pub ipv4: Option<(u32, u32)>,
}

/// Octet `k` (0 is the first, most significant) of an IPv4 address.
pub open spec fn octet(a: u32, k: nat) -> nat {
    if k == 0 {
        (a / 16777216) as nat
    } else if k == 1 {
        ((a / 65536) % 256) as nat
    } else if k == 2 {
        ((a / 256) % 256) as nat
    } else {
        (a % 256) as nat
    }
}

/// The dotted-decimal text of an IPv4 address.
pub open spec fn ipv4_text(a: u32) -> Seq<char> {
    decimal(octet(a, 0)) + "."@ + decimal(octet(a, 1)) + "."@ + decimal(octet(a, 2)) + "."@ + decimal(
        octet(a, 3),
    )
}

/// The dotted-decimal text of an IPv4 address, as `Ipv4Addr` displays it.
pub fn format_ipv4(a: u32) -> (r: String)
    ensures
        r@ == ipv4_text(a),
{
    let mut out: Vec<char> = Vec::new();
    push_decimal(&mut out, (a / 16777216) as u64);
    push_str(&mut out, ".");
    push_decimal(&mut out, ((a / 65536) % 256) as u64);
    push_str(&mut out, ".");
    push_decimal(&mut out, ((a / 256) % 256) as u64);
    push_str(&mut out, ".");
    push_decimal(&mut out, (a % 256) as u64);
    string_of(&out)
}

/// The broadcast address of a subnet: the address with all host bits set.
pub fn compute_broadcast(ip: u32, netmask: u32) -> (r: u32)
    ensures
        r == ip | !netmask,
{
    ip | !netmask
}

/// Whether an address is in the loopback range 127.0.0.0/8.
pub open spec fn is_loopback_addr(a: u32) -> bool {
    octet(a, 0) == 127
}

/// The name fragments (lower case) that mark an interface as virtual.
pub open spec fn virtual_marker(s: Seq<char>) -> bool {
    ||| s == "vmware"@
    ||| s == "virtualbox"@
    ||| s == "vbox"@
    ||| s == "hyper-v"@
    ||| s == "veth"@
    ||| s == "docker"@
    ||| s == "vpn"@
    ||| s == "tun"@
    ||| s == "tap"@
    ||| s == "tailscale"@
    ||| s == "wsl"@
    ||| s == "hamachi"@
    ||| s == "zerotier"@
}

/// Whether an interface name marks a virtual interface: its lower-case form
/// contains one of the markers.
pub open spec fn virtual_name(name: Seq<char>) -> bool {
    exists|m: Seq<char>| virtual_marker(m) && contains_seq(spec_lowercase(name), m)
}

fn has_fragment(hay: &Vec<char>, frag: &str) -> (r: bool)
    ensures
        r == contains_seq(hay@, frag@),
{
    let f = chars_of(frag);
    contains_chars(hay, &f)
}

/// Whether the interface name marks a virtual interface (VMware, VirtualBox,
/// Hyper-V, veth, Docker, VPN, tun/tap, Tailscale, WSL, Hamachi, ZeroTier).
pub fn is_virtual_name(name: &str) -> (r: bool)
    ensures
        r == virtual_name(name@),
{
    let lower = lowercase(name);
    let h = chars_of(lower.as_str());
    proof {
        reveal_strlit("vmware");
        reveal_strlit("virtualbox");
        reveal_strlit("vbox");
        reveal_strlit("hyper-v");
        reveal_strlit("veth");
        reveal_strlit("docker");
        reveal_strlit("vpn");
        reveal_strlit("tun");
        reveal_strlit("tap");
        reveal_strlit("tailscale");
        reveal_strlit("wsl");
        reveal_strlit("hamachi");
        reveal_strlit("zerotier");
    }
    let r = has_fragment(&h, "vmware") || has_fragment(&h, "virtualbox") || has_fragment(&h, "vbox")
        || has_fragment(&h, "hyper-v") || has_fragment(&h, "veth") || has_fragment(&h, "docker")
        || has_fragment(&h, "vpn") || has_fragment(&h, "tun") || has_fragment(&h, "tap")
        || has_fragment(&h, "tailscale") || has_fragment(&h, "wsl") || has_fragment(&h, "hamachi")
        || has_fragment(&h, "zerotier");
    proof {
        if r {
            if contains_seq(h@, "vmware"@) { assert(virtual_marker("vmware"@)); }
            else if contains_seq(h@, "virtualbox"@) { assert(virtual_marker("virtualbox"@)); }
            else if contains_seq(h@, "vbox"@) { assert(virtual_marker("vbox"@)); }
            else if contains_seq(h@, "hyper-v"@) { assert(virtual_marker("hyper-v"@)); }
            else if contains_seq(h@, "veth"@) { assert(virtual_marker("veth"@)); }
            else if contains_seq(h@, "docker"@) { assert(virtual_marker("docker"@)); }
            else if contains_seq(h@, "vpn"@) { assert(virtual_marker("vpn"@)); }
            else if contains_seq(h@, "tun"@) { assert(virtual_marker("tun"@)); }
            else if contains_seq(h@, "tap"@) { assert(virtual_marker("tap"@)); }
            else if contains_seq(h@, "tailscale"@) { assert(virtual_marker("tailscale"@)); }
            else if contains_seq(h@, "wsl"@) { assert(virtual_marker("wsl"@)); }
            else if contains_seq(h@, "hamachi"@) { assert(virtual_marker("hamachi"@)); }
            else { assert(virtual_marker("zerotier"@)); }
        } else {
            assert forall|m: Seq<char>| virtual_marker(m) implies !contains_seq(spec_lowercase(name@), m) by {}
        }
    }
    r
}

/// Whether `i` is the interface that the listed `r` stands for: the same name, the
/// dotted-decimal text of its address and of its netmask, as broadcast address the
/// address with every host bit set (`ip | !netmask`), and not loopback.
pub open spec fn describes(i: NetworkInterface, r: RawInterface) -> bool {
    match r.ipv4 {
        Some((ip, mask)) => {
            &&& i.name == r.name
            &&& i.ip@ == ipv4_text(ip)
            &&& i.netmask@ == ipv4_text(mask)
            &&& i.broadcast@ == ipv4_text(ip | !mask)
            &&& !i.is_loopback
        },
        None => false,
    }
}

/// Whether `i` is the interface that one of the listed `raw` stands for.
pub open spec fn describes_some(i: NetworkInterface, raw: Seq<RawInterface>) -> bool {
    exists|j: int| 0 <= j < raw.len() && #[trigger] describes(i, raw[j])
}

/// The broadcast address `ip | !netmask` keeps the network part of the address and
/// sets every host bit, whatever the netmask.
pub proof fn lemma_broadcast_sets_the_host_bits(ip: u32, netmask: u32)
    ensures
        (ip | !netmask) & netmask == ip & netmask,
        (ip | !netmask) & !netmask == !netmask,
{
    assert((ip | !netmask) & netmask == ip & netmask) by (bit_vector);
    assert((ip | !netmask) & !netmask == !netmask) by (bit_vector);
}

/// The interface that a listed IPv4 address stands for.
pub open spec fn interface_of(name: String, ip: u32, mask: u32) -> (Seq<char>, Seq<char>, Seq<char>, Seq<char>, bool, bool) {
    (name@, ipv4_text(ip), ipv4_text(mask), ipv4_text(ip | !mask), is_loopback_addr(ip), virtual_name(name@))
}

/// The view of an interface: name, address, netmask, broadcast address, and the
/// loopback and virtual flags.
pub open spec fn iface_view(i: NetworkInterface) -> (Seq<char>, Seq<char>, Seq<char>, Seq<char>, bool, bool) {
    (i.name@, i.ip@, i.netmask@, i.broadcast@, i.is_loopback, i.is_virtual)
}

/// Whether a listed interface takes part: it has an IPv4 address that is neither
/// loopback nor 0.0.0.0.
pub open spec fn usable(r: RawInterface) -> bool {
    r.ipv4 matches Some((ip, mask)) && !is_loopback_addr(ip) && ip != 0
}

/// The interfaces that the listed ones give, in listing order.
pub open spec fn usable_interfaces(raw: Seq<RawInterface>) -> Seq<(Seq<char>, Seq<char>, Seq<char>, Seq<char>, bool, bool)>
    decreases raw.len(),
{
    if raw.len() == 0 {
        Seq::empty()
    } else {
        let rest = usable_interfaces(raw.drop_last());
        let r = raw.last();
        match r.ipv4 {
            Some((ip, mask)) => if usable(r) {
                rest.push(interface_of(r.name, ip, mask))
            } else {
                rest
            },
            None => rest,
        }
    }
}

/// Whether the interface view `v` (name, address, netmask, broadcast, loopback,
/// virtual) stands for the listed `r`: its name, the dotted texts of its address
/// and netmask, the address with every host bit set as broadcast, not loopback.
pub open spec fn view_stands_for(v: (Seq<char>, Seq<char>, Seq<char>, Seq<char>, bool, bool), r: RawInterface) -> bool {
    match r.ipv4 {
        Some((ip, mask)) => v.0 == r.name@ && v.1 == ipv4_text(ip) && v.2 == ipv4_text(mask) && v.3 == ipv4_text(
            ip | !mask,
        ) && !v.4,
        None => false,
    }
}

/// Whether `v` stands for one of the listed interfaces `raw`.
pub open spec fn view_stands_for_some(v: (Seq<char>, Seq<char>, Seq<char>, Seq<char>, bool, bool), raw: Seq<RawInterface>) -> bool {
    exists|j: int| 0 <= j < raw.len() && #[trigger] view_stands_for(v, raw[j])
}

/// Every interface that takes part stands for a listed IPv4 interface, with the
/// dotted text of that address and netmask and, whatever the netmask, the address
/// with every host bit set (`ip | !netmask`) as its broadcast address.
pub proof fn lemma_listed_interfaces_broadcast_to_their_subnet(raw: Seq<RawInterface>)
    ensures
        forall|k: int| 0 <= k < usable_interfaces(raw).len() ==> #[trigger] view_stands_for_some(usable_interfaces(raw)[k], raw),
    decreases raw.len(),
{
    if raw.len() > 0 {
        let d = raw.drop_last();
        lemma_listed_interfaces_broadcast_to_their_subnet(d);
        let rest = usable_interfaces(d);
        let u = usable_interfaces(raw);
        assert forall|k: int| 0 <= k < u.len() implies #[trigger] view_stands_for_some(u[k], raw) by {
            if k < rest.len() {
                assert(u[k] == rest[k]);
                assert(view_stands_for_some(rest[k], d));
                let j = choose|j: int| 0 <= j < d.len() && #[trigger] view_stands_for(rest[k], d[j]);
                assert(d[j] == raw[j]);
                assert(view_stands_for(u[k], raw[j]));
            } else {
                assert(view_stands_for(u[k], raw[raw.len() - 1]));
            }
        }
    }
}

/// The interfaces that take part, from the system's listing: IPv4 only, without
/// loopback and unspecified addresses, each with its broadcast address and whether
/// it is virtual, in listing order.
pub fn usable_from_raw(raw: &Vec<RawInterface>) -> (r: Vec<NetworkInterface>)
    ensures
        r@.map_values(|i: NetworkInterface| iface_view(i)) == usable_interfaces(raw@),
        forall|i: int| 0 <= i < r@.len() ==> !(#[trigger] r@[i]).is_loopback,
        forall|k: int| 0 <= k < r@.len() ==> #[trigger] describes_some(r@[k], raw@),
{
    let mut out: Vec<NetworkInterface> = Vec::new();
    let mut j: usize = 0;
    let ghost mut src: Seq<int> = Seq::empty();
    while j < raw.len()
        invariant
            j <= raw@.len(),
            out@.map_values(|i: NetworkInterface| iface_view(i)) == usable_interfaces(raw@.take(j as int)),
            forall|i: int| 0 <= i < out@.len() ==> !(#[trigger] out@[i]).is_loopback,
            src.len() == out@.len(),
            forall|k: int| 0 <= k < out@.len() ==> 0 <= #[trigger] src[k] < j && describes(out@[k], raw@[src[k]]),
        decreases raw@.len() - j,
    {
        assert(raw@.take(j + 1).drop_last() =~= raw@.take(j as int));
        let ghost before = out@;
        match raw[j].ipv4 {
            Some((ip, mask)) => {
                if ip / 16777216 != 127 && ip != 0 {
                    let iface = NetworkInterface {
                        name: raw[j].name.clone(),
                        ip: format_ipv4(ip),
                        netmask: format_ipv4(mask),
                        broadcast: format_ipv4(compute_broadcast(ip, mask)),
                        is_loopback: ip / 16777216 == 127,
                        is_virtual: is_virtual_name(raw[j].name.as_str()),
                    };
                    assert(describes(iface, raw@[j as int]));
                    out.push(iface);
                    proof {
                        src = src.push(j as int);
                        assert forall|k: int| 0 <= k < out@.len() implies 0 <= #[trigger] src[k] < j + 1 && describes(out@[k], raw@[src[k]]) by {
                            if k < before.len() {
                                assert(out@[k] == before[k]);
                            }
                        }
                    }
                    assert(out@.map_values(|i: NetworkInterface| iface_view(i)) =~= before.map_values(|i: NetworkInterface| iface_view(i)).push(iface_view(iface)));
                }
            },
            None => {},
        }
        j = j + 1;
    }
    assert(raw@.take(raw@.len() as int) =~= raw@);
    assert forall|k: int| 0 <= k < out@.len() implies #[trigger] describes_some(out@[k], raw@) by {
        assert(describes(out@[k], raw@[src[k]]));
    }
    out
}

/// The interfaces used for broadcasting: those that are not virtual, in order.
/// From a list in listing order (as `get_all_interfaces` gives it) they come by
/// ascending name; from a list without loopback interfaces they hold none.
pub fn get_physical_interfaces(all: &Vec<NetworkInterface>) -> (r: Vec<NetworkInterface>)
    ensures
        r@ == all@.filter(|i: NetworkInterface| !i.is_virtual),
        forall|i: int| 0 <= i < r@.len() ==> !(#[trigger] r@[i]).is_virtual,
        (forall|i: int| 0 <= i < all@.len() ==> !(#[trigger] all@[i]).is_loopback) ==> forall|i: int|
            0 <= i < r@.len() ==> !(#[trigger] r@[i]).is_loopback,
        sorted_ifaces(all@) ==> forall|i: int, j: int|
            0 <= i < j < r@.len() ==> !chars_lt(#[trigger] r@[j].name@, #[trigger] r@[i].name@),
{
    let ghost pred = |i: NetworkInterface| !i.is_virtual;
    let ghost mut idx: Seq<int> = Seq::empty();
    let mut out: Vec<NetworkInterface> = Vec::new();
    let mut j: usize = 0;
    while j < all.len()
        invariant
            j <= all@.len(),
            pred == (|i: NetworkInterface| !i.is_virtual),
            out@ == all@.take(j as int).filter(pred),
            idx.len() == out@.len(),
            forall|k: int| 0 <= k < idx.len() ==> 0 <= #[trigger] idx[k] < j && out@[k] == all@[idx[k]],
            forall|a: int, b: int| 0 <= a < b < idx.len() ==> #[trigger] idx[a] < #[trigger] idx[b],
            forall|k: int| 0 <= k < out@.len() ==> !(#[trigger] out@[k]).is_virtual,
        decreases all@.len() - j,
    {
        reveal_with_fuel(Seq::<_>::filter, 1);
        assert(all@.take(j + 1).drop_last() =~= all@.take(j as int));
        if !all[j].is_virtual {
            out.push(all[j].duplicate());
            proof {
                idx = idx.push(j as int);
            }
        }
        j = j + 1;
    }
    assert(all@.take(all@.len() as int) =~= all@);
    proof {
        if forall|i: int| 0 <= i < all@.len() ==> !(#[trigger] all@[i]).is_loopback {
            assert forall|i: int| 0 <= i < out@.len() implies !(#[trigger] out@[i]).is_loopback by {
                assert(out@[i] == all@[idx[i]]);
            }
        }
        if sorted_ifaces(all@) {
            assert forall|a: int, b: int| 0 <= a < b < out@.len() implies !chars_lt(#[trigger] out@[b].name@, #[trigger] out@[a].name@) by {
                assert(idx[a] < idx[b]);
                assert(out@[a] == all@[idx[a]]);
                assert(out@[b] == all@[idx[b]]);
                assert(!iface_lt(all@[idx[b]], all@[idx[a]]));
            }
        }
    }
    out
}

/// Whether `a` comes before `b` in lexicographic order of characters (code points),
/// which is the order of `String`'s comparison.
pub open spec fn chars_lt(a: Seq<char>, b: Seq<char>) -> bool
    decreases a.len(),
{
    if a.len() == 0 {
        b.len() > 0
    } else if b.len() == 0 {
        false
    } else if (a[0] as int) < (b[0] as int) {
        true
    } else if a[0] == b[0] {
        chars_lt(a.drop_first(), b.drop_first())
    } else {
        false
    }
}

proof fn lemma_chars_lt_irrefl(a: Seq<char>)
    ensures
        !chars_lt(a, a),
    decreases a.len(),
{
    if a.len() > 0 {
        lemma_chars_lt_irrefl(a.drop_first());
    }
}

proof fn lemma_chars_lt_trans(a: Seq<char>, b: Seq<char>, c: Seq<char>)
    requires
        chars_lt(a, b),
        chars_lt(b, c),
    ensures
        chars_lt(a, c),
    decreases a.len(),
{
    if a.len() > 0 && b.len() > 0 && c.len() > 0 {
        if a[0] == b[0] && b[0] == c[0] {
            lemma_chars_lt_trans(a.drop_first(), b.drop_first(), c.drop_first());
        }
    }
}

proof fn lemma_chars_lt_total(a: Seq<char>, b: Seq<char>)
    ensures
        a == b || chars_lt(a, b) || chars_lt(b, a),
    decreases a.len(),
{
    if a.len() > 0 && b.len() > 0 {
        if a[0] == b[0] {
            lemma_chars_lt_total(a.drop_first(), b.drop_first());
            if a.drop_first() == b.drop_first() {
                assert(a =~= seq![a[0]] + a.drop_first());
                assert(b =~= seq![b[0]] + b.drop_first());
            }
        }
    } else if a.len() == 0 && b.len() == 0 {
        assert(a =~= b);
    }
}

proof fn lemma_chars_lt_skip(a: Seq<char>, b: Seq<char>, i: int)
    requires
        0 <= i <= a.len(),
        i <= b.len(),
        a.subrange(0, i) == b.subrange(0, i),
    ensures
        chars_lt(a, b) == chars_lt(a.skip(i), b.skip(i)),
    decreases i,
{
    if i > 0 {
        assert(a[0] == a.subrange(0, i)[0]);
        assert(b[0] == b.subrange(0, i)[0]);
        assert(a.drop_first().subrange(0, i - 1) =~= a.subrange(0, i).drop_first());
        assert(b.drop_first().subrange(0, i - 1) =~= b.subrange(0, i).drop_first());
        lemma_chars_lt_skip(a.drop_first(), b.drop_first(), i - 1);
        assert(a.drop_first().skip(i - 1) =~= a.skip(i));
        assert(b.drop_first().skip(i - 1) =~= b.skip(i));
    } else {
        assert(a.skip(0) =~= a);
        assert(b.skip(0) =~= b);
    }
}

/// Whether the characters `a` come before the characters `b`.
fn name_lt(a: &Vec<char>, b: &Vec<char>) -> (r: bool)
    ensures
        r == chars_lt(a@, b@),
{
    let mut i: usize = 0;
    while i < a.len() && i < b.len()
        invariant
            i <= a@.len(),
            i <= b@.len(),
            a@.subrange(0, i as int) == b@.subrange(0, i as int),
        decreases a@.len() - i,
    {
        if a[i] != b[i] {
            proof {
                lemma_chars_lt_skip(a@, b@, i as int);
                assert(a@.skip(i as int)[0] == a@[i as int]);
                assert(b@.skip(i as int)[0] == b@[i as int]);
            }
            return a[i] < b[i];
        }
        i = i + 1;
        assert(a@.subrange(0, i as int) =~= a@.subrange(0, i - 1).push(a@[i - 1]));
        assert(b@.subrange(0, i as int) =~= b@.subrange(0, i - 1).push(b@[i - 1]));
    }
    proof {
        lemma_chars_lt_skip(a@, b@, i as int);
    }
    i < b.len()
}

/// Whether interface `a` is listed before interface `b`: physical before virtual,
/// then by name.
pub open spec fn iface_lt(a: NetworkInterface, b: NetworkInterface) -> bool {
    (!a.is_virtual && b.is_virtual) || (a.is_virtual == b.is_virtual && chars_lt(a.name@, b.name@))
}

/// Whether two interfaces have the same sort key (virtual flag and name).
pub open spec fn same_key(a: NetworkInterface, b: NetworkInterface) -> bool {
    a.is_virtual == b.is_virtual && a.name@ == b.name@
}

/// Whether the interfaces are in listing order.
pub open spec fn sorted_ifaces(s: Seq<NetworkInterface>) -> bool {
    forall|i: int, j: int| 0 <= i < j < s.len() ==> !iface_lt(#[trigger] s[j], #[trigger] s[i])
}

/// Whether `out` holds, for every sort key, the interfaces of `inp` with that key in
/// the order they have in `inp` (so `out` is a stable reordering of `inp`).
pub open spec fn keeps_key_order(out: Seq<NetworkInterface>, inp: Seq<NetworkInterface>) -> bool {
    forall|k: NetworkInterface| #[trigger] out.filter(key_pred(k)) == inp.filter(key_pred(k))
}

/// The test for having the sort key of `k`.
pub open spec fn key_pred(k: NetworkInterface) -> spec_fn(NetworkInterface) -> bool {
    |y: NetworkInterface| same_key(y, k)
}

proof fn lemma_iface_lt_facts(a: NetworkInterface, b: NetworkInterface, c: NetworkInterface)
    ensures
        !iface_lt(a, a),
        iface_lt(a, b) && iface_lt(b, c) ==> iface_lt(a, c),
        same_key(a, b) || iface_lt(a, b) || iface_lt(b, a),
        same_key(a, b) ==> (iface_lt(a, c) == iface_lt(b, c) && iface_lt(c, a) == iface_lt(c, b)),
        same_key(a, b) ==> !iface_lt(a, b),
{
    lemma_chars_lt_irrefl(a.name@);
    lemma_chars_lt_irrefl(b.name@);
    lemma_chars_lt_total(a.name@, b.name@);
    if iface_lt(a, b) && iface_lt(b, c) && a.is_virtual == b.is_virtual && b.is_virtual == c.is_virtual {
        lemma_chars_lt_trans(a.name@, b.name@, c.name@);
    }
}

proof fn lemma_filter_split(s: Seq<NetworkInterface>, p: int, x: NetworkInterface, f: spec_fn(NetworkInterface) -> bool)
    requires
        0 <= p <= s.len(),
    ensures
        s.filter(f) == s.subrange(0, p).filter(f) + s.subrange(p, s.len() as int).filter(f),
        s.insert(p, x).filter(f) == s.subrange(0, p).filter(f) + seq![x].filter(f) + s.subrange(p, s.len() as int).filter(f),
{
    assert(s =~= s.subrange(0, p) + s.subrange(p, s.len() as int));
    Seq::filter_distributes_over_add(s.subrange(0, p), s.subrange(p, s.len() as int), f);
    assert(s.insert(p, x) =~= (s.subrange(0, p) + seq![x]) + s.subrange(p, s.len() as int));
    Seq::filter_distributes_over_add(s.subrange(0, p) + seq![x], s.subrange(p, s.len() as int), f);
    Seq::filter_distributes_over_add(s.subrange(0, p), seq![x], f);
}

proof fn lemma_filter_single(x: NetworkInterface, f: spec_fn(NetworkInterface) -> bool)
    ensures
        f(x) ==> seq![x].filter(f) == seq![x],
        !f(x) ==> seq![x].filter(f) == Seq::<NetworkInterface>::empty(),
{
    reveal_with_fuel(Seq::<_>::filter, 2);
    assert(seq![x].drop_last() =~= Seq::<NetworkInterface>::empty());
}

proof fn lemma_insert_keeps(out: Seq<NetworkInterface>, inp: Seq<NetworkInterface>, p: int, x: NetworkInterface)
    requires
        0 <= p <= out.len(),
        sorted_ifaces(out),
        keeps_key_order(out, inp.drop_last()),
        inp.len() > 0,
        inp.last() == x,
        forall|i: int| 0 <= i < p ==> !iface_lt(x, #[trigger] out[i]),
        p < out.len() ==> iface_lt(x, out[p]),
    ensures
        sorted_ifaces(out.insert(p, x)),
        keeps_key_order(out.insert(p, x), inp),
{
    let n = out.insert(p, x);
    assert forall|i: int, j: int| 0 <= i < j < n.len() implies !iface_lt(#[trigger] n[j], #[trigger] n[i]) by {
        if i < p && j < p {
            assert(n[i] == out[i] && n[j] == out[j]);
        } else if i < p && j == p {
            assert(n[j] == x && n[i] == out[i]);
        } else if i < p {
            assert(n[i] == out[i] && n[j] == out[j - 1]);
        } else if i == p {
            assert(n[i] == x && n[j] == out[j - 1]);
            lemma_iface_lt_facts(out[j - 1], x, out[p]);
            lemma_iface_lt_facts(out[p], out[p], out[p]);
        } else {
            assert(n[i] == out[i - 1] && n[j] == out[j - 1]);
        }
    }
    assert forall|k: NetworkInterface| #[trigger] n.filter(key_pred(k)) == inp.filter(key_pred(k)) by {
        let f = key_pred(k);
        lemma_filter_split(out, p, x, f);
        lemma_filter_single(x, f);
        reveal_with_fuel(Seq::<_>::filter, 1);
        assert(out.filter(f) == inp.drop_last().filter(f));
        if f(x) {
            let tail = out.subrange(p, out.len() as int);
            assert forall|i: int| 0 <= i < tail.len() implies !f(#[trigger] tail[i]) by {
                assert(tail[i] == out[p + i]);
                lemma_iface_lt_facts(out[p + i], x, out[p]);
                lemma_iface_lt_facts(out[p], out[p], out[p]);
                if i > 0 {
                    assert(!iface_lt(out[p + i], out[p]));
                }
            }
            assert(tail.all(|y: NetworkInterface| !f(y)));
            tail.lemma_all_neg_filter_empty(f);
            assert(tail.filter(f) =~= Seq::<NetworkInterface>::empty());
            assert(n.filter(f) =~= out.filter(f).push(x));
        } else {
            assert(n.filter(f) =~= out.filter(f));
        }
    }
}

/// The interfaces in listing order: physical before virtual, then by name; those
/// with the same kind and name keep their order (a stable sort).
pub fn sort_interfaces(v: Vec<NetworkInterface>) -> (r: Vec<NetworkInterface>)
    ensures
        sorted_ifaces(r@),
        keeps_key_order(r@, v@),
        (forall|i: int| 0 <= i < v@.len() ==> !(#[trigger] v@[i]).is_loopback) ==> forall|k: int|
            0 <= k < r@.len() ==> !(#[trigger] r@[k]).is_loopback,
        forall|k: int| 0 <= k < r@.len() ==> v@.contains(#[trigger] r@[k]),
{
    let mut out: Vec<NetworkInterface> = Vec::new();
    let mut j: usize = 0;
    proof {
        assert(v@.take(0) =~= out@);
    }
    while j < v.len()
        invariant
            j <= v@.len(),
            sorted_ifaces(out@),
            keeps_key_order(out@, v@.take(j as int)),
            (forall|i: int| 0 <= i < v@.len() ==> !(#[trigger] v@[i]).is_loopback) ==> forall|k: int|
                0 <= k < out@.len() ==> !(#[trigger] out@[k]).is_loopback,
            forall|k: int| 0 <= k < out@.len() ==> v@.contains(#[trigger] out@[k]),
        decreases v@.len() - j,
    {
        let x = v[j].duplicate();
        let xn = chars_of(x.name.as_str());
        let mut p: usize = 0;
        while p < out.len()
            invariant_except_break
                p <= out@.len(),
                xn@ == x.name@,
                forall|i: int| 0 <= i < p ==> !iface_lt(x, #[trigger] out@[i]),
            ensures
                p <= out@.len(),
                forall|i: int| 0 <= i < p ==> !iface_lt(x, #[trigger] out@[i]),
                p < out@.len() ==> iface_lt(x, out@[p as int]),
            decreases out@.len() - p,
        {
            let on = chars_of(out[p].name.as_str());
            let before = (!x.is_virtual && out[p].is_virtual)
                || (x.is_virtual == out[p].is_virtual && name_lt(&xn, &on));
            if before {
                break;
            }
            p = p + 1;
        }
        proof {
            assert(v@.take(j + 1).drop_last() =~= v@.take(j as int));
            assert(v@.take(j + 1).last() == x);
            lemma_insert_keeps(out@, v@.take(j + 1), p as int, x);
        }
        let ghost before = out@;
        out.insert(p, x);
        proof {
            assert(v@[j as int] == x);
            assert forall|k: int| 0 <= k < out@.len() implies v@.contains(#[trigger] out@[k]) by {
                if k < p {
                    assert(out@[k] == before[k]);
                } else if k > p {
                    assert(out@[k] == before[k - 1]);
                } else {
                    assert(out@[k] == v@[j as int]);
                }
            }
            if forall|i: int| 0 <= i < v@.len() ==> !(#[trigger] v@[i]).is_loopback {
                assert(!v@[j as int].is_loopback);
                assert forall|k: int| 0 <= k < out@.len() implies !(#[trigger] out@[k]).is_loopback by {
                    if k < p {
                        assert(out@[k] == before[k]);
                    } else if k > p {
                        assert(out@[k] == before[k - 1]);
                    }
                }
            }
        }
        j = j + 1;
    }
    assert(v@.take(v@.len() as int) =~= v@);
    out
}

/// All interfaces that take part, from the system's listing, in listing order:
/// physical before virtual, then by name.
pub fn get_all_interfaces(raw: &Vec<RawInterface>) -> (r: Vec<NetworkInterface>)
    ensures
        sorted_ifaces(r@),
        forall|i: int| 0 <= i < r@.len() ==> !(#[trigger] r@[i]).is_loopback,
        forall|k: int| 0 <= k < r@.len() ==> #[trigger] describes_some(r@[k], raw@),
        exists|u: Seq<NetworkInterface>| u.map_values(|i: NetworkInterface| iface_view(i)) == usable_interfaces(raw@)
            && keeps_key_order(r@, u),
{
    let u = usable_from_raw(raw);
    let ghost uv = u@;
    let r = sort_interfaces(u);
    assert forall|k: int| 0 <= k < r@.len() implies #[trigger] describes_some(r@[k], raw@) by {
        assert(uv.contains(r@[k]));
        let i = choose|i: int| 0 <= i < uv.len() && uv[i] == r@[k];
        assert(describes_some(uv[i], raw@));
    }
    r
}

} // verus!
