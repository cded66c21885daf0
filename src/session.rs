//! The decisions taken for one proxied request: validate the target, ask
//! for a route, walk it, set up a direct or chained tunnel, or forward.
//!
//! The caller performs each returned action and reports what came of it.
use vstd::prelude::*;
use crate::authority::{TunnelTarget, authority_parts, is_socket_authority, parse_target};
use crate::fallback::{Attempt, Failure, Fallback, unsupported_run};
use crate::route::{EntryModel, RouteEntry, first_supported, lemma_first_supported, route_model};

verus! {

/// Status sent back for a CONNECT target that is not `host:port`.
pub const BAD_REQUEST: u16 = 400;

/// Status sent back when no route gives a working path.
pub const BAD_GATEWAY: u16 = 502;

/// Status of an accepted tunnel.
pub const OK: u16 = 200;

/// What the caller must do next.
#[derive(Clone, Copy, Debug, PartialEq, Eq, Structural)]
pub enum Action {
    /// Answer `400` with `rejection_body()`; nothing is connected.
    Reject,
    /// Ask the resolver for the request's route and report it.
    Resolve,
    /// Open a connection to the upstream of the route entry at this index.
    OpenUpstream(usize),
    /// Send a CONNECT for the target over the open upstream connection and
    /// report the status it gets.
    SendInnerConnect,
    /// Answer `200` with an empty body, then upgrade the client connection,
    /// connect to the target and relay bytes both ways.
    AcceptAndRelay,
    /// Answer `200` with an empty body, then upgrade both the client and the
    /// upstream connection and relay bytes both ways.
    AcceptAndSplice,
    /// Hand the request to the plain HTTP client and return its response.
    ForwardDirect,
    /// Send the request over the open upstream connection and return its
    /// response.
    ForwardOverUpstream,
    /// Answer `502`: no route entry gave a working path.
    NoRoute,
    /// Answer `502`: the resolver could not produce a route.
    ResolveFailed,
}

/// Where a session stands.
#[derive(Clone, Copy, Debug, PartialEq, Eq, Structural)]
pub enum Phase {
    AwaitRoute,
    Connecting,
    AwaitInner,
    Done,
}

/// Why the resolver produced no route.
#[derive(Clone, Copy, Debug, PartialEq, Eq, Structural)]
pub enum ResolveError {
    /// The evaluation of this one query failed.
    Evaluation,
    /// The resolver is gone; no query will be answered any more.
    Unavailable,
}

/// The status that the caller answers with for an action that answers the
/// client itself, if it does.
pub open spec fn status_spec(a: Action) -> Option<u16> {
    match a {
        Action::Reject => Some(BAD_REQUEST),
        Action::AcceptAndRelay | Action::AcceptAndSplice => Some(OK),
        Action::NoRoute | Action::ResolveFailed => Some(BAD_GATEWAY),
        _ => None,
    }
}

pub fn response_status(a: Action) -> (r: Option<u16>)
    ensures
        r == status_spec(a),
{
    match a {
        Action::Reject => Some(BAD_REQUEST),
        Action::AcceptAndRelay | Action::AcceptAndSplice => Some(OK),
        Action::NoRoute | Action::ResolveFailed => Some(BAD_GATEWAY),
        _ => None,
    }
}

/// The body of the answer to a CONNECT whose target is not `host:port`.
pub fn rejection_body() -> (r: String)
    ensures
        r@ == "CONNECT must be to a socket address"@,
{
    "CONNECT must be to a socket address".to_owned()
}

/// Whether a nested CONNECT status accepts the tunnel.
pub open spec fn is_success(status: u16) -> bool {
    200 <= status < 300
}

/// The action and phase that trying entry `k` of `route` leads to; `k` past
/// the end means that the route is exhausted.
pub open spec fn choice(tunnel: bool, route: Seq<EntryModel>, k: int) -> (Action, Phase) {
    if k < 0 || k >= route.len() {
        (Action::NoRoute, Phase::Done)
    } else {
        match route[k] {
            EntryModel::Direct => if tunnel {
                (Action::AcceptAndRelay, Phase::Done)
            } else {
                (Action::ForwardDirect, Phase::Done)
            },
            EntryModel::Proxied { .. } => (Action::OpenUpstream(k as usize), Phase::Connecting),
        }
    }
}

/// The state of one request.
pub struct Session {
    tunnel: bool,
    target: Option<TunnelTarget>,
    user_agent: Option<String>,
    phase: Phase,
    router: Fallback,
}

impl Session {
    /// Whether the request is a CONNECT.
    pub closed spec fn is_tunnel(&self) -> bool {
        self.tunnel
    }

    pub closed spec fn phase(&self) -> Phase {
        self.phase
    }

    /// The walk over the route; empty until a route arrives.
    pub closed spec fn router(&self) -> Fallback {
        self.router
    }

    /// The validated CONNECT target, for a tunnel past validation.
    pub closed spec fn target(&self) -> Option<TunnelTarget> {
        self.target
    }

    /// The user agent that the client sent, if any.
    pub closed spec fn user_agent(&self) -> Option<Seq<char>> {
        match self.user_agent {
            Some(u) => Some(u@),
            None => None,
        }
    }

    pub open spec fn wf(&self) -> bool {
        &&& self.router().wf()
        &&& (self.is_tunnel() && self.phase() != Phase::Done) ==> self.target() is Some
        &&& self.phase() == Phase::Connecting || self.phase() == Phase::AwaitInner ==> {
            &&& self.router().cursor() < self.router().route().len()
            &&& self.router().route()[self.router().cursor()] is Proxied
            &&& self.router().route()[self.router().cursor()].is_supported()
        }
        &&& self.phase() == Phase::AwaitInner ==> self.is_tunnel()
    }

    /// The entry now being tried, when the session waits on a connection.
    pub open spec fn current(&self) -> int {
        self.router().cursor()
    }

    /// Starts a CONNECT request for the target text `target`. A target that
    /// is not `host:port` is rejected at once, before any connection.
    pub fn connect(target: &str, user_agent: Option<String>) -> (r: (Session, Action))
        ensures
            r.0.wf(),
            r.0.is_tunnel(),
            r.0.user_agent() == (match user_agent {
                Some(u) => Some(u@),
                None => None::<Seq<char>>,
            }),
            r.0.router().route().len() == 0,
            is_socket_authority(authority_parts(target@)) ==> {
                &&& r.1 == Action::Resolve
                &&& r.0.phase() == Phase::AwaitRoute
                &&& r.0.target() matches Some(t) && t.authority@ == target@ && authority_parts(
                    target@,
                ) == Some((t.host@, Some(t.port)))
            },
            !is_socket_authority(authority_parts(target@)) ==> r.1 == Action::Reject
                && r.0.phase() == Phase::Done,
            target@.contains('/') ==> r.1 == Action::Reject && r.0.phase() == Phase::Done,
    {
        let router = Fallback::new(Vec::new());
        proof {
            assert(router.route() =~= Seq::<EntryModel>::empty());
        }
        match parse_target(target) {
            Ok(t) => (
                Session { tunnel: true, target: Some(t), user_agent, phase: Phase::AwaitRoute, router },
                Action::Resolve,
            ),
            Err(_) => (
                Session { tunnel: true, target: None, user_agent, phase: Phase::Done, router },
                Action::Reject,
            ),
        }
    }

    /// Starts a request of any method but CONNECT.
    pub fn forward() -> (r: (Session, Action))
        ensures
            r.0.wf(),
            !r.0.is_tunnel(),
            r.0.phase() == Phase::AwaitRoute,
            r.0.router().route().len() == 0,
            r.1 == Action::Resolve,
    {
        let router = Fallback::new(Vec::new());
        proof {
            assert(router.route() =~= Seq::<EntryModel>::empty());
        }
        (Session { tunnel: false, target: None, user_agent: None, phase: Phase::AwaitRoute, router }, Action::Resolve)
    }

    /// Moves to the next entry that can be tried and says what to do with it.
    fn proceed(&mut self) -> (r: Action)
        requires
            old(self).router().wf(),
            old(self).is_tunnel() ==> old(self).target() is Some,
        ensures
            final(self).wf(),
            final(self).is_tunnel() == old(self).is_tunnel(),
            final(self).target() == old(self).target(),
            final(self).user_agent() == old(self).user_agent(),
            final(self).router().route() == old(self).router().route(),
            final(self).current() == first_supported(old(self).router().route(), old(self).current()),
            final(self).router().failures() == old(self).router().failures() + unsupported_run(
                (final(self).current() - old(self).current()) as nat,
            ),
            (r, final(self).phase()) == choice(
                old(self).is_tunnel(),
                old(self).router().route(),
                first_supported(old(self).router().route(), old(self).current()),
            ),
    {
        proof {
            lemma_first_supported(self.router().route(), self.current());
        }
        match self.router.next() {
            Attempt::Exhausted => {
                self.phase = Phase::Done;
                Action::NoRoute
            },
            Attempt::Try(k) => {
                if self.router.entry(k).is_direct() {
                    self.phase = Phase::Done;
                    if self.tunnel {
                        Action::AcceptAndRelay
                    } else {
                        Action::ForwardDirect
                    }
                } else {
                    self.phase = Phase::Connecting;
                    Action::OpenUpstream(k)
                }
            },
        }
    }

    /// Takes the resolver's answer. An empty route finds nothing, and no
    /// connection is asked for.
    pub fn on_route(&mut self, answer: Result<Vec<RouteEntry>, ResolveError>) -> (r: Action)
        requires
            old(self).wf(),
            old(self).phase() == Phase::AwaitRoute,
        ensures
            final(self).wf(),
            final(self).is_tunnel() == old(self).is_tunnel(),
            final(self).target() == old(self).target(),
            final(self).user_agent() == old(self).user_agent(),
            answer is Err ==> r == Action::ResolveFailed && final(self).phase() == Phase::Done,
            answer matches Ok(route) ==> {
                &&& final(self).router().route() == route_model(route@)
                &&& final(self).current() == first_supported(route_model(route@), 0)
                &&& (r, final(self).phase()) == choice(
                    old(self).is_tunnel(),
                    route_model(route@),
                    first_supported(route_model(route@), 0),
                )
                &&& final(self).router().failures().len() == final(self).current()
            },
            answer matches Ok(route) && route@.len() == 0 ==> r == Action::NoRoute,
    {
        match answer {
            Err(_) => {
                self.phase = Phase::Done;
                Action::ResolveFailed
            },
            Ok(route) => {
                self.router = Fallback::new(route);
                self.proceed()
            },
        }
    }

    /// Takes the outcome of opening the upstream connection. A failure is
    /// recorded and the walk moves on to the next entry.
    pub fn on_connect(&mut self, connected: bool) -> (r: Action)
        requires
            old(self).wf(),
            old(self).phase() == Phase::Connecting,
        ensures
            final(self).wf(),
            final(self).is_tunnel() == old(self).is_tunnel(),
            final(self).target() == old(self).target(),
            final(self).user_agent() == old(self).user_agent(),
            final(self).router().route() == old(self).router().route(),
            connected ==> {
                &&& final(self).router() == old(self).router()
                &&& old(self).is_tunnel() ==> r == Action::SendInnerConnect && final(self).phase()
                    == Phase::AwaitInner
                &&& !old(self).is_tunnel() ==> r == Action::ForwardOverUpstream && final(self).phase()
                    == Phase::Done
            },
            !connected ==> {
                &&& final(self).router().failures().take(old(self).current() + 1) == old(
                    self,
                ).router().failures().push(Failure::Unreachable)
                &&& final(self).current() == first_supported(
                    old(self).router().route(),
                    old(self).current() + 1,
                )
                &&& (r, final(self).phase()) == choice(
                    old(self).is_tunnel(),
                    old(self).router().route(),
                    first_supported(old(self).router().route(), old(self).current() + 1),
                )
            },
    {
        if connected {
            if self.tunnel {
                self.phase = Phase::AwaitInner;
                Action::SendInnerConnect
            } else {
                self.phase = Phase::Done;
                Action::ForwardOverUpstream
            }
        } else {
            self.router.fail(Failure::Unreachable);
            let ghost mid = self.router().failures();
            let r = self.proceed();
            proof {
                assert(self.router().failures().take(old(self).current() + 1) =~= mid);
            }
            r
        }
    }

    /// Takes the status that the upstream gave the nested CONNECT. Only a
    /// success status lets the client's tunnel be accepted; any other is a
    /// failure of this entry, and the walk moves on.
    pub fn on_inner_status(&mut self, status: u16) -> (r: Action)
        requires
            old(self).wf(),
            old(self).phase() == Phase::AwaitInner,
        ensures
            final(self).wf(),
            final(self).is_tunnel(),
            final(self).target() == old(self).target(),
            final(self).user_agent() == old(self).user_agent(),
            final(self).router().route() == old(self).router().route(),
            is_success(status) ==> r == Action::AcceptAndSplice && final(self).phase() == Phase::Done
                && final(self).router() == old(self).router(),
            !is_success(status) ==> {
                &&& final(self).router().failures().take(old(self).current() + 1) == old(
                    self,
                ).router().failures().push(Failure::Refused)
                &&& final(self).current() == first_supported(
                    old(self).router().route(),
                    old(self).current() + 1,
                )
                &&& (r, final(self).phase()) == choice(
                    true,
                    old(self).router().route(),
                    first_supported(old(self).router().route(), old(self).current() + 1),
                )
            },
    {
        if 200 <= status && status < 300 {
            self.phase = Phase::Done;
            Action::AcceptAndSplice
        } else {
            self.router.fail(Failure::Refused);
            let ghost mid = self.router().failures();
            let r = self.proceed();
            proof {
                assert(self.router().failures().take(old(self).current() + 1) =~= mid);
            }
            r
        }
    }

    /// The validated target of a tunnel.
    pub fn tunnel_target(&self) -> (r: &TunnelTarget)
        requires
            self.target() is Some,
        ensures
            self.target() == Some(*r),
    {
        self.target.as_ref().unwrap()
    }

    /// The route entry at `i` of the route being walked.
    pub fn entry(&self, i: usize) -> (r: &RouteEntry)
        requires
            self.wf(),
            i < self.router().route().len(),
        ensures
            r@ == self.router().route()[i as int],
    {
        self.router.entry(i)
    }

    /// Why each entry tried so far failed, in route order.
    pub fn failures(&self) -> (r: &Vec<Failure>)
        ensures
            r@ == self.router().failures(),
    {
        self.router.failures_so_far()
    }

    pub fn phase_now(&self) -> (r: Phase)
        ensures
            r == self.phase(),
    {
        self.phase
    }

    /// The headers of the nested CONNECT sent to an upstream: the target as
    /// `host`, the client's user agent (or the proxy's own name), and a
    /// keep-alive hint.
    pub fn inner_connect_headers(&self) -> (r: Vec<(String, String)>)
        requires
            self.target() is Some,
        ensures
            r@.len() == 3,
            r@[0].0@ == "host"@ && r@[0].1@ == self.target()->Some_0.authority@,
            r@[1].0@ == "user-agent"@ && r@[1].1@ == default_agent(self.user_agent()),
            r@[2].0@ == "proxy-connection"@ && r@[2].1@ == "Keep-Alive"@,
    {
        let authority = self.tunnel_target().authority.clone();
        let agent = match &self.user_agent {
            Some(u) => u.clone(),
            None => "pac_proxy".to_owned(),
        };
        let mut headers: Vec<(String, String)> = Vec::new();
        headers.push(("host".to_owned(), authority));
        headers.push(("user-agent".to_owned(), agent));
        headers.push(("proxy-connection".to_owned(), "Keep-Alive".to_owned()));
        headers
    }
}

/// The user agent put on a nested CONNECT.
pub open spec fn default_agent(client: Option<Seq<char>>) -> Seq<char> {
    match client {
        Some(u) => u,
        None => "pac_proxy"@,
    }
}

/// A CONNECT whose route is only `Direct` is accepted with a success status
/// and then relayed; the success answer is part of the same action, sent
/// before the relay starts.
pub proof fn lemma_direct_route_accepts()
    ensures
        choice(true, seq![EntryModel::Direct], first_supported(seq![EntryModel::Direct], 0))
            == (Action::AcceptAndRelay, Phase::Done),
        status_spec(Action::AcceptAndRelay) == Some(OK),
{
}

/// An empty route finds no route, for tunnels and forwarded requests alike,
/// and asks for no connection.
pub proof fn lemma_empty_route_finds_nothing(tunnel: bool)
    ensures
        choice(tunnel, Seq::<EntryModel>::empty(), first_supported(Seq::<EntryModel>::empty(), 0))
            == (Action::NoRoute, Phase::Done),
{
}

/// When the entry at `i` fails and a `Direct` entry follows it, the walk
/// goes on to that entry, and the request proceeds without an upstream.
pub proof fn lemma_falls_through_to_direct(tunnel: bool, route: Seq<EntryModel>, i: int)
    requires
        0 <= i,
        i + 1 < route.len(),
        route[i + 1] is Direct,
    ensures
        first_supported(route, i + 1) == i + 1,
        choice(tunnel, route, first_supported(route, i + 1)).0 == (if tunnel {
            Action::AcceptAndRelay
        } else {
            Action::ForwardDirect
        }),
{
}

/// When an upstream refuses the nested CONNECT of entry `i` and no `Direct`
/// entry follows, the client is not answered with success: the walk either
/// finds no route or tries another upstream, whose own CONNECT must succeed
/// first.
pub proof fn lemma_refusal_never_accepts(route: Seq<EntryModel>, i: int)
    requires
        0 <= i < route.len(),
        forall|j: int| i < j < route.len() ==> !(#[trigger] route[j] is Direct),
    ensures
        status_spec(choice(true, route, first_supported(route, i + 1)).0) != Some(OK),
{
    lemma_first_supported(route, i + 1);
}

} // verus!
