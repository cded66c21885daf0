//! The route model: an ordered list of candidate paths for one request.
use vstd::prelude::*;

verus! {

/// The protocol spoken by an upstream hop.
#[derive(Clone, Copy, Debug, PartialEq, Eq, Structural)]
pub enum ProxyKind {
    Proxy,
    Http,
    Https,
    Socks,
    Socks4,
    Socks5,
}

impl ProxyKind {
    /// Only plain HTTP upstreams can be relayed through.
    pub open spec fn is_supported(self) -> bool {
        self is Proxy || self is Http
    }

    pub fn supported(&self) -> (r: bool)
        ensures
            r == self.is_supported(),
    {
        match self {
            ProxyKind::Proxy | ProxyKind::Http => true,
            _ => false,
        }
    }
}

/// One candidate path of a route.
#[derive(Clone, Debug)]
pub enum RouteEntry {
    /// Connect straight to the request's own target.
    Direct,
    /// Relay through the upstream at `host:port`.
    Proxied { kind: ProxyKind, host: String, port: u16 },
}

/// What a route entry stands for, with its host as a character sequence.
pub enum EntryModel {
    Direct,
    Proxied { kind: ProxyKind, host: Seq<char>, port: u16 },
}

impl EntryModel {
    /// An entry that a connector can be asked to try.
    pub open spec fn is_supported(self) -> bool {
        match self {
            EntryModel::Direct => true,
            EntryModel::Proxied { kind, .. } => kind.is_supported(),
        }
    }
}

impl View for RouteEntry {
    type V = EntryModel;

    open spec fn view(&self) -> EntryModel {
        match self {
            RouteEntry::Direct => EntryModel::Direct,
            RouteEntry::Proxied { kind, host, port } => EntryModel::Proxied {
                kind: *kind,
                host: host@,
                port: *port,
            },
        }
    }
}

/// The model of a whole route.
pub open spec fn route_model(route: Seq<RouteEntry>) -> Seq<EntryModel> {
    route.map_values(|e: RouteEntry| e@)
}

impl RouteEntry {
    pub fn is_supported(&self) -> (r: bool)
        ensures
            r == self@.is_supported(),
    {
        match self {
            RouteEntry::Direct => true,
            RouteEntry::Proxied { kind, .. } => kind.supported(),
        }
    }

    pub fn is_direct(&self) -> (r: bool)
        ensures
            r == (self@ is Direct),
    {
        match self {
            RouteEntry::Direct => true,
            _ => false,
        }
    }
}

/// The index of the first entry at or after `from` that a connector can try,
/// or the route's length when there is none.
pub open spec fn first_supported(route: Seq<EntryModel>, from: int) -> int
    decreases route.len() - from,
{
    if from < 0 || from >= route.len() {
        route.len() as int
    } else if route[from].is_supported() {
        from
    } else {
        first_supported(route, from + 1)
    }
}

/// What `first_supported` is, stated directly.
pub proof fn lemma_first_supported(route: Seq<EntryModel>, from: int)
    requires
        0 <= from <= route.len(),
    ensures
        from <= first_supported(route, from) <= route.len(),
        first_supported(route, from) < route.len() ==> route[first_supported(
            route,
            from,
        )].is_supported(),
        forall|j: int| from <= j < first_supported(route, from) ==> !(#[trigger] route[j]).is_supported(),
    decreases route.len() - from,
{
    if from < route.len() && !route[from].is_supported() {
        lemma_first_supported(route, from + 1);
    }
}

} // verus!
