//! A static table from address blocks to upstream proxies, matched against
//! the proxy's own outbound address.
use vstd::prelude::*;
use vstd::arithmetic::power2::pow2;
use crate::authority::{TargetError, parse_target};
use crate::route::{EntryModel, ProxyKind, RouteEntry, route_model};

verus! {

/// Whether `addr` lies in the block of `width`-bit addresses that shares the
/// first `prefix` bits of `net`.
pub open spec fn in_block(net: int, prefix: nat, width: nat, addr: int) -> bool {
    addr / (pow2((width - prefix) as nat) as int) == net / (pow2((width - prefix) as nat) as int)
}

/// Relies on `ipnet::Ipv4Net::new`, which refuses only a prefix over 32, and
/// on `Ipv4Net::contains` for a single-address net, which holds when that
/// address lies between the block's network and broadcast addresses.
#[verifier::external_body]
fn v4_block_holds(net: u32, prefix: u8, addr: u32) -> (r: bool)
    requires
        prefix <= 32,
    ensures
        r == in_block(net as int, prefix as nat, 32, addr as int),
{
    match (ipnet::Ipv4Net::new(net.into(), prefix), ipnet::Ipv4Net::new(addr.into(), 32)) {
        (Ok(block), Ok(host)) => block.contains(&host),
        _ => false,
    }
}

/// Relies on `ipnet::Ipv6Net::new`, which refuses only a prefix over 128, and
/// on `Ipv6Net::contains` for a single-address net, which holds when that
/// address lies between the block's first and last addresses.
#[verifier::external_body]
fn v6_block_holds(net: u128, prefix: u8, addr: u128) -> (r: bool)
    requires
        prefix <= 128,
    ensures
        r == in_block(net as int, prefix as nat, 128, addr as int),
{
    match (ipnet::Ipv6Net::new(net.into(), prefix), ipnet::Ipv6Net::new(addr.into(), 128)) {
        (Ok(block), Ok(host)) => block.contains(&host),
        _ => false,
    }
}

/// The proxy's own outbound address.
#[derive(Clone, Copy, Debug, PartialEq, Eq, Structural)]
pub enum LocalAddr {
    V4(u32),
    V6(u128),
}

/// One block of the table and the upstream it selects.
#[derive(Clone, Debug)]
pub enum SubnetRule {
    V4 { net: u32, prefix: u8, host: String, port: u16 },
    V6 { net: u128, prefix: u8, host: String, port: u16 },
}

/// Why a rule could not be added to a table.
#[derive(Clone, Copy, Debug, PartialEq, Eq, Structural)]
pub enum TableError {
    /// The prefix is longer than the address.
    PrefixTooLong,
    /// The upstream is not a `host:port` authority.
    BadUpstream(TargetError),
}

impl SubnetRule {
    pub open spec fn prefix(&self) -> u8 {
        match self {
            SubnetRule::V4 { prefix, .. } => *prefix,
            SubnetRule::V6 { prefix, .. } => *prefix,
        }
    }

    pub open spec fn wf(&self) -> bool {
        match self {
            SubnetRule::V4 { prefix, .. } => *prefix <= 32,
            SubnetRule::V6 { prefix, .. } => *prefix <= 128,
        }
    }

    /// Whether the rule's block holds `addr`; a block only holds addresses
    /// of its own family.
    pub open spec fn holds(&self, addr: LocalAddr) -> bool {
        match (self, addr) {
            (SubnetRule::V4 { net, prefix, .. }, LocalAddr::V4(a)) => in_block(
                *net as int,
                *prefix as nat,
                32,
                a as int,
            ),
            (SubnetRule::V6 { net, prefix, .. }, LocalAddr::V6(a)) => in_block(
                *net as int,
                *prefix as nat,
                128,
                a as int,
            ),
            _ => false,
        }
    }

    /// The route entry of the rule's upstream.
    pub open spec fn entry(&self) -> EntryModel {
        match self {
            SubnetRule::V4 { host, port, .. } => EntryModel::Proxied {
                kind: ProxyKind::Proxy,
                host: host@,
                port: *port,
            },
            SubnetRule::V6 { host, port, .. } => EntryModel::Proxied {
                kind: ProxyKind::Proxy,
                host: host@,
                port: *port,
            },
        }
    }

    fn holds_addr(&self, addr: LocalAddr) -> (r: bool)
        requires
            self.wf(),
        ensures
            r == self.holds(addr),
    {
        match (self, addr) {
            (SubnetRule::V4 { net, prefix, .. }, LocalAddr::V4(a)) => v4_block_holds(
                *net,
                *prefix,
                a,
            ),
            (SubnetRule::V6 { net, prefix, .. }, LocalAddr::V6(a)) => v6_block_holds(
                *net,
                *prefix,
                a,
            ),
            _ => false,
        }
    }

    fn prefix_len(&self) -> (r: u8)
        ensures
            r == self.prefix(),
    {
        match self {
            SubnetRule::V4 { prefix, .. } => *prefix,
            SubnetRule::V6 { prefix, .. } => *prefix,
        }
    }

    fn to_entry(&self) -> (r: RouteEntry)
        ensures
            r@ == self.entry(),
    {
        match self {
            SubnetRule::V4 { host, port, .. } => RouteEntry::Proxied {
                kind: ProxyKind::Proxy,
                host: host.clone(),
                port: *port,
            },
            SubnetRule::V6 { host, port, .. } => RouteEntry::Proxied {
                kind: ProxyKind::Proxy,
                host: host.clone(),
                port: *port,
            },
        }
    }
}

/// Whether rule `i` is the most specific rule holding `addr`: it holds
/// `addr`, no rule holding `addr` has a longer prefix, and every earlier rule
/// holding `addr` has a shorter one.
pub open spec fn is_most_specific(rules: Seq<SubnetRule>, addr: LocalAddr, i: int) -> bool {
    &&& 0 <= i < rules.len()
    &&& rules[i].holds(addr)
    &&& forall|j: int|
        0 <= j < rules.len() && #[trigger] rules[j].holds(addr) ==> rules[j].prefix()
            <= rules[i].prefix()
    &&& forall|j: int|
        0 <= j < i && #[trigger] rules[j].holds(addr) ==> rules[j].prefix() < rules[i].prefix()
}

/// Whether some rule holds `addr`.
pub open spec fn any_holds(rules: Seq<SubnetRule>, addr: LocalAddr) -> bool {
    exists|j: int| 0 <= j < rules.len() && #[trigger] rules[j].holds(addr)
}

/// At most one rule is the most specific for an address, so a lookup in an
/// unchanged table always selects the same upstream.
pub proof fn lemma_most_specific_unique(rules: Seq<SubnetRule>, addr: LocalAddr, i: int, j: int)
    requires
        is_most_specific(rules, addr, i),
        is_most_specific(rules, addr, j),
    ensures
        i == j,
{
    if i < j {
        assert(rules[i].holds(addr));
    } else if j < i {
        assert(rules[j].holds(addr));
    }
}

/// The blocks of the table in the order they were added.
pub struct SubnetTable {
    rules: Vec<SubnetRule>,
}

impl SubnetTable {
    pub closed spec fn rules(&self) -> Seq<SubnetRule> {
        self.rules@
    }

    pub open spec fn wf(&self) -> bool {
        forall|i: int| 0 <= i < self.rules().len() ==> (#[trigger] self.rules()[i]).wf()
    }

    /// The route that the table gives for `addr`: the upstream of the most
    /// specific rule holding it, or a direct connection when none does.
    pub open spec fn route_for(&self, addr: LocalAddr, route: Seq<EntryModel>) -> bool {
        &&& route.len() == 1
        &&& !any_holds(self.rules(), addr) ==> route[0] is Direct
        &&& any_holds(self.rules(), addr) ==> exists|i: int|
            is_most_specific(self.rules(), addr, i) && route[0] == #[trigger] self.rules()[i].entry()
    }

    /// An empty table.
    pub fn new() -> (r: SubnetTable)
        ensures
            r.wf(),
            r.rules() == Seq::<SubnetRule>::empty(),
    {
        SubnetTable { rules: Vec::new() }
    }

    /// Adds an IPv4 block whose upstream is the `host:port` text `upstream`.
    pub fn add_v4(&mut self, net: u32, prefix: u8, upstream: &str) -> (r: Result<(), TableError>)
        requires
            old(self).wf(),
        ensures
            final(self).wf(),
            prefix > 32 ==> r == Err::<(), TableError>(TableError::PrefixTooLong),
            r is Ok ==> {
                &&& prefix <= 32
                &&& final(self).rules().len() == old(self).rules().len() + 1
                &&& final(self).rules().drop_last() == old(self).rules()
                &&& final(self).rules().last() matches SubnetRule::V4 { net: n, prefix: q, host, port }
                    && n == net && q == prefix
                    && crate::authority::authority_parts(upstream@) == Some((host@, Some(port)))
            },
            r is Err ==> final(self).rules() == old(self).rules(),
            prefix <= 32 ==> (r is Ok <==> crate::authority::is_socket_authority(
                crate::authority::authority_parts(upstream@),
            )),
            r matches Err(TableError::BadUpstream(e)) ==> e == crate::authority::target_error(
                crate::authority::authority_parts(upstream@),
            ),
    {
        if prefix > 32 {
            return Err(TableError::PrefixTooLong);
        }
        match parse_target(upstream) {
            Err(e) => Err(TableError::BadUpstream(e)),
            Ok(t) => {
                let ghost prev = self.rules@;
                self.rules.push(SubnetRule::V4 { net, prefix, host: t.host, port: t.port });
                proof {
                    assert(self.rules().drop_last() =~= prev);
                    assert forall|i: int| 0 <= i < self.rules().len() implies (#[trigger] self.rules()[i]).wf() by {
                        if i < prev.len() {
                            assert(self.rules()[i] == prev[i]);
                            assert(old(self).rules()[i].wf());
                        } else {
                            assert(self.rules()[i] == self.rules().last());
                        }
                    }
                }
                Ok(())
            },
        }
    }

    /// Adds an IPv6 block whose upstream is the `host:port` text `upstream`.
    pub fn add_v6(&mut self, net: u128, prefix: u8, upstream: &str) -> (r: Result<(), TableError>)
        requires
            old(self).wf(),
        ensures
            final(self).wf(),
            prefix > 128 ==> r == Err::<(), TableError>(TableError::PrefixTooLong),
            r is Ok ==> {
                &&& prefix <= 128
                &&& final(self).rules().len() == old(self).rules().len() + 1
                &&& final(self).rules().drop_last() == old(self).rules()
                &&& final(self).rules().last() matches SubnetRule::V6 { net: n, prefix: q, host, port }
                    && n == net && q == prefix
                    && crate::authority::authority_parts(upstream@) == Some((host@, Some(port)))
            },
            r is Err ==> final(self).rules() == old(self).rules(),
            prefix <= 128 ==> (r is Ok <==> crate::authority::is_socket_authority(
                crate::authority::authority_parts(upstream@),
            )),
            r matches Err(TableError::BadUpstream(e)) ==> e == crate::authority::target_error(
                crate::authority::authority_parts(upstream@),
            ),
    {
        if prefix > 128 {
            return Err(TableError::PrefixTooLong);
        }
        match parse_target(upstream) {
            Err(e) => Err(TableError::BadUpstream(e)),
            Ok(t) => {
                let ghost prev = self.rules@;
                self.rules.push(SubnetRule::V6 { net, prefix, host: t.host, port: t.port });
                proof {
                    assert(self.rules().drop_last() =~= prev);
                    assert forall|i: int| 0 <= i < self.rules().len() implies (#[trigger] self.rules()[i]).wf() by {
                        if i < prev.len() {
                            assert(self.rules()[i] == prev[i]);
                            assert(old(self).rules()[i].wf());
                        } else {
                            assert(self.rules()[i] == self.rules().last());
                        }
                    }
                }
                Ok(())
            },
        }
    }

    /// The index of the most specific rule holding `addr`, if any rule does.
    pub fn best_rule(&self, addr: LocalAddr) -> (r: Option<usize>)
        requires
            self.wf(),
        ensures
            r is None <==> !any_holds(self.rules(), addr),
            r matches Some(i) ==> is_most_specific(self.rules(), addr, i as int),
    {
        let mut best: Option<usize> = None;
        let mut k: usize = 0;
        while k < self.rules.len()
            invariant
                self.wf(),
                k <= self.rules().len(),
                best is None ==> forall|j: int| 0 <= j < k ==> !(#[trigger] self.rules()[j].holds(addr)),
                best matches Some(b) ==> {
                    &&& b < k
                    &&& self.rules()[b as int].holds(addr)
                    &&& forall|j: int|
                        0 <= j < k && #[trigger] self.rules()[j].holds(addr) ==> self.rules()[j].prefix()
                            <= self.rules()[b as int].prefix()
                    &&& forall|j: int|
                        0 <= j < b && #[trigger] self.rules()[j].holds(addr) ==> self.rules()[j].prefix()
                            < self.rules()[b as int].prefix()
                },
            decreases self.rules().len() - k,
        {
            let rule = &self.rules[k];
            assert(rule.wf());
            if rule.holds_addr(addr) {
                match best {
                    None => {
                        best = Some(k);
                    },
                    Some(b) => {
                        if rule.prefix_len() > self.rules[b].prefix_len() {
                            best = Some(k);
                        }
                    },
                }
            }
            k = k + 1;
        }
        best
    }

    /// The route for a request made while the proxy's outbound address is
    /// `addr`. The table does not depend on the request's target.
    pub fn resolve(&self, addr: LocalAddr) -> (r: Vec<RouteEntry>)
        requires
            self.wf(),
        ensures
            self.route_for(addr, route_model(r@)),
    {
        let mut route: Vec<RouteEntry> = Vec::new();
        match self.best_rule(addr) {
            None => {
                route.push(RouteEntry::Direct);
            },
            Some(i) => {
                route.push(self.rules[i].to_entry());
                assert(route_model(route@)[0] == self.rules()[i as int].entry());
            },
        }
        route
    }
}

/// Asking an unchanged table twice for the same address gives the same
/// route.
pub proof fn lemma_resolve_deterministic(
    table: SubnetTable,
    addr: LocalAddr,
    first: Seq<EntryModel>,
    second: Seq<EntryModel>,
)
    requires
        table.route_for(addr, first),
        table.route_for(addr, second),
    ensures
        first == second,
{
    if any_holds(table.rules(), addr) {
        let i = choose|i: int|
            is_most_specific(table.rules(), addr, i) && first[0] == #[trigger] table.rules()[i].entry();
        let j = choose|j: int|
            is_most_specific(table.rules(), addr, j) && second[0] == #[trigger] table.rules()[j].entry();
        lemma_most_specific_unique(table.rules(), addr, i, j);
    }
    assert(first =~= second);
}

} // verus!
