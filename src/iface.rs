use vstd::prelude::*;

verus! {

/// An IP address held as plain integers, most significant bits first.
#[derive(Clone, Copy, Debug, PartialEq, Eq, Structural)]
pub enum IpAddress {
    V4(u32),
    V6(u128),
}

/// The IPv6 loopback address `::1`.
pub const IPV6_LOOPBACK: u128 = 1;

impl IpAddress {
    /// `127.0.0.0/8` for IPv4, `::1` for IPv6.
    pub open spec fn spec_is_loopback(self) -> bool {
        match self {
            IpAddress::V4(a) => a / 0x0100_0000 == 127,
            IpAddress::V6(a) => a == IPV6_LOOPBACK,
        }
    }

    pub open spec fn spec_is_ipv6(self) -> bool {
        self is V6
    }

    pub fn is_loopback(&self) -> (r: bool)
        ensures
            r == self.spec_is_loopback(),
    {
        match self {
            IpAddress::V4(a) => *a / 0x0100_0000 == 127,
            IpAddress::V6(a) => *a == IPV6_LOOPBACK,
        }
    }

    pub fn is_ipv6(&self) -> (r: bool)
        ensures
            r == self.spec_is_ipv6(),
    {
        match self {
            IpAddress::V4(_) => false,
            IpAddress::V6(_) => true,
        }
    }
}

/// One address of a network interface of this host.
///
/// `addr_text` is the address in the textual form the host reports, which is
/// what an identifier given by a user is compared with.
#[derive(Debug)]
pub struct Interface {
    pub name: String,
    pub addr: IpAddress,
    pub addr_text: String,
    pub index: Option<u32>,
}

impl Interface {
    pub open spec fn is_loopback_spec(&self) -> bool {
        self.addr.spec_is_loopback()
    }

    /// The interface is IPv6 and `id` is its name or its address text.
    pub open spec fn selected_by(&self, id: Seq<char>) -> bool {
        &&& self.addr.spec_is_ipv6()
        &&& (self.addr_text@ == id || self.name@ == id)
    }

    pub fn is_loopback(&self) -> (r: bool)
        ensures
            r == self.is_loopback_spec(),
    {
        self.addr.is_loopback()
    }

    pub fn ip(&self) -> (r: IpAddress)
        ensures
            r == self.addr,
    {
        self.addr
    }
}

/// The interfaces of `s` that are not loopback interfaces, in order.
pub open spec fn non_loopback(s: Seq<Interface>) -> Seq<Interface> {
    s.filter(|i: Interface| !i.is_loopback_spec())
}

/// The first interface of `s` selected by `id`.
pub open spec fn first_selected(s: Seq<Interface>, id: Seq<char>) -> Option<Interface>
    decreases s.len(),
{
    if s.len() == 0 {
        None
    } else if s[0].selected_by(id) {
        Some(s[0])
    } else {
        first_selected(s.drop_first(), id)
    }
}

/// What resolving `id` against the host interfaces `s` yields.
pub open spec fn resolve(s: Seq<Interface>, id: Seq<char>) -> Option<Interface> {
    first_selected(non_loopback(s), id)
}

proof fn lemma_first_selected_found(t: Seq<Interface>, id: Seq<char>)
    ensures
        first_selected(t, id) matches Some(x) ==> exists|k: int|
            0 <= k < t.len() && t[k] == x && #[trigger] x.selected_by(id),
    decreases t.len(),
{
    if t.len() > 0 && !t[0].selected_by(id) {
        lemma_first_selected_found(t.drop_first(), id);
        if let Some(x) = first_selected(t, id) {
            let k = choose|k: int| 0 <= k < t.len() - 1 && t.drop_first()[k] == x;
            assert(t[k + 1] == x);
        }
    }
}

proof fn lemma_first_selected_none(t: Seq<Interface>, id: Seq<char>)
    requires
        forall|k: int| 0 <= k < t.len() ==> !(#[trigger] t[k]).selected_by(id),
    ensures
        first_selected(t, id) is None,
    decreases t.len(),
{
    if t.len() > 0 {
        assert forall|k: int| 0 <= k < t.len() - 1 implies !(#[trigger] t.drop_first()[k]).selected_by(
            id,
        ) by {
            assert(t.drop_first()[k] == t[k + 1]);
        }
        lemma_first_selected_none(t.drop_first(), id);
    }
}

/// Resolution depends on the host interfaces and the identifier alone: asked
/// twice with the same interfaces, it gives the same answer.
pub proof fn lemma_resolve_repeatable(
    s: Seq<Interface>,
    id: Seq<char>,
    first: Option<Interface>,
    second: Option<Interface>,
)
    requires
        first == resolve(s, id),
        second == resolve(s, id),
    ensures
        first == second,
{
}

/// A resolved interface is one of the host interfaces, taken whole: it is not a
/// loopback interface, it is IPv6, and its name or address text is the
/// identifier.
pub proof fn lemma_resolved_interface_is_whole(s: Seq<Interface>, id: Seq<char>)
    ensures
        resolve(s, id) matches Some(x) ==> {
            &&& s.contains(x)
            &&& !x.is_loopback_spec()
            &&& x.selected_by(id)
        },
{
    broadcast use vstd::seq_lib::group_filter_ensures;

    let pred = |i: Interface| !i.is_loopback_spec();
    let t = non_loopback(s);
    lemma_first_selected_found(t, id);
    if let Some(x) = resolve(s, id) {
        let k = choose|k: int| 0 <= k < t.len() && t[k] == x && #[trigger] x.selected_by(id);
        assert(t.contains(x));
        s.lemma_filter_contains_rev(pred, x);
        s.lemma_filter_pred(pred, k);
    }
}

/// An identifier that names no IPv6 interface of the host, and is the address
/// text of none, resolves to nothing.
pub proof fn lemma_unmatched_identifier_not_found(s: Seq<Interface>, id: Seq<char>)
    requires
        forall|k: int| 0 <= k < s.len() ==> !(#[trigger] s[k]).selected_by(id),
    ensures
        resolve(s, id) is None,
{
    let pred = |i: Interface| !i.is_loopback_spec();
    let t = non_loopback(s);
    assert forall|k: int| 0 <= k < t.len() implies !(#[trigger] t[k]).selected_by(id) by {
        assert(t.contains(t[k]));
        s.lemma_filter_contains_rev(pred, t[k]);
    }
    lemma_first_selected_none(t, id);
}

/// Keeps the interfaces that are not loopback interfaces, in their order.
pub fn non_loopback_interfaces(interfaces: Vec<Interface>) -> (r: Vec<Interface>)
    ensures
        r@ == non_loopback(interfaces@),
{
    let ghost all = interfaces@;
    let n: usize = interfaces.len();
    let mut rest = interfaces;
    let mut r: Vec<Interface> = Vec::new();
    let mut i: usize = 0;
    while rest.len() > 0
        invariant
            i <= all.len() == n,
            rest@ == all.subrange(i as int, all.len() as int),
            r@ == non_loopback(all.subrange(0, i as int)),
        decreases rest.len(),
    {
        let iface = rest.remove(0);
        proof {
            let pre = all.subrange(0, i as int);
            let next = all.subrange(0, i as int + 1);
            assert(next.drop_last() =~= pre);
            assert(next.last() == iface);
            reveal(Seq::filter);
        }
        if !iface.is_loopback() {
            r.push(iface);
        }
        i = i + 1;
    }
    assert(all.subrange(0, all.len() as int) =~= all);
    r
}

/// Resolves `ip_or_name` to the first non-loopback IPv6 interface whose name or
/// address text equals it. The identifier is compared as it stands: no
/// normalisation of address text is done.
pub fn get_interface(interfaces: Vec<Interface>, ip_or_name: &str) -> (r: Option<Interface>)
    ensures
        r == resolve(interfaces@, ip_or_name@),
{
    let id = ip_or_name.to_owned();
    let mut candidates = non_loopback_interfaces(interfaces);
    let ghost s = candidates@;
    let mut i: usize = 0;
    assert(s.subrange(0, s.len() as int) =~= s);
    while i < candidates.len()
        invariant
            candidates@ == s,
            s == non_loopback(interfaces@),
            i <= s.len(),
            id@ == ip_or_name@,
            first_selected(s, id@) == first_selected(s.subrange(i as int, s.len() as int), id@),
        decreases s.len() - i,
    {
        proof {
            let rest = s.subrange(i as int, s.len() as int);
            assert(rest.drop_first() =~= s.subrange(i as int + 1, s.len() as int));
        }
        let hit = candidates[i].ip().is_ipv6() && (candidates[i].addr_text == id
            || candidates[i].name == id);
        if hit {
            assert(s.subrange(i as int, s.len() as int)[0] == s[i as int]);
            assert(first_selected(s, id@) == Some(s[i as int]));
            let found = candidates.remove(i);
            return Some(found);
        }
        i = i + 1;
    }
    None
}

} // verus!
