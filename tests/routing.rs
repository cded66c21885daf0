use pac_proxy::authority::{parse_target, TargetError};
use pac_proxy::fallback::{Attempt, Failure, Fallback};
use pac_proxy::resolver::{answer, answer_all, Query};
use pac_proxy::route::{ProxyKind, RouteEntry};
use pac_proxy::subnet::{LocalAddr, SubnetTable, TableError};

fn v4(a: u8, b: u8, c: u8, d: u8) -> u32 {
    u32::from_be_bytes([a, b, c, d])
}

fn proxied(kind: ProxyKind, host: &str, port: u16) -> RouteEntry {
    RouteEntry::Proxied { kind, host: host.to_string(), port }
}

fn upstream_of(route: &[RouteEntry]) -> Option<(String, u16)> {
    assert_eq!(route.len(), 1);
    match &route[0] {
        RouteEntry::Direct => None,
        RouteEntry::Proxied { kind, host, port } => {
            assert_eq!(*kind, ProxyKind::Proxy);
            Some((host.clone(), *port))
        }
    }
}

#[test]
fn target_with_host_and_port_is_accepted() {
    let t = parse_target("www.example.com:443").unwrap();
    assert_eq!(t.authority, "www.example.com:443");
    assert_eq!(t.host, "www.example.com");
    assert_eq!(t.port, 443);
}

#[test]
fn target_with_ipv6_literal_is_accepted() {
    let t = parse_target("[::1]:8443").unwrap();
    assert_eq!(t.host, "[::1]");
    assert_eq!(t.port, 8443);
}

#[test]
fn target_path_is_not_an_authority() {
    assert!(matches!(parse_target("/not-an-authority"), Err(TargetError::NotAnAuthority)));
}

#[test]
fn empty_target_is_not_an_authority() {
    assert!(matches!(parse_target(""), Err(TargetError::NotAnAuthority)));
}

#[test]
fn target_without_port_is_refused() {
    assert!(matches!(parse_target("www.example.com"), Err(TargetError::MissingPort)));
}

#[test]
fn target_without_host_is_refused() {
    assert!(matches!(parse_target(":443"), Err(TargetError::MissingHost)));
}

#[test]
fn table_without_match_routes_direct() {
    let mut t = SubnetTable::new();
    t.add_v4(v4(10, 0, 0, 0), 8, "proxy.corp:3128").unwrap();
    let route = t.resolve(LocalAddr::V4(v4(192, 168, 1, 7)));
    assert_eq!(upstream_of(&route), None);
}

#[test]
fn empty_table_routes_direct() {
    let t = SubnetTable::new();
    assert_eq!(t.best_rule(LocalAddr::V6(1)), None);
    assert_eq!(upstream_of(&t.resolve(LocalAddr::V6(1))), None);
}

#[test]
fn table_picks_most_specific_block() {
    let mut t = SubnetTable::new();
    t.add_v4(v4(10, 0, 0, 0), 8, "wide.corp:3128").unwrap();
    t.add_v4(v4(10, 1, 0, 0), 16, "narrow.corp:8080").unwrap();
    t.add_v4(v4(10, 1, 2, 0), 24, "other.corp:80").unwrap();
    let addr = LocalAddr::V4(v4(10, 1, 9, 9));
    assert_eq!(t.best_rule(addr), Some(1));
    assert_eq!(upstream_of(&t.resolve(addr)), Some(("narrow.corp".to_string(), 8080)));
    let inner = LocalAddr::V4(v4(10, 1, 2, 200));
    assert_eq!(upstream_of(&t.resolve(inner)), Some(("other.corp".to_string(), 80)));
    let outer = LocalAddr::V4(v4(10, 200, 0, 1));
    assert_eq!(upstream_of(&t.resolve(outer)), Some(("wide.corp".to_string(), 3128)));
}

#[test]
fn table_prefers_earlier_block_on_equal_prefix() {
    let mut t = SubnetTable::new();
    t.add_v4(v4(172, 16, 0, 0), 12, "first.corp:1").unwrap();
    t.add_v4(v4(172, 16, 0, 0), 12, "second.corp:2").unwrap();
    assert_eq!(t.best_rule(LocalAddr::V4(v4(172, 20, 0, 1))), Some(0));
}

#[test]
fn table_zero_prefix_holds_every_address() {
    let mut t = SubnetTable::new();
    t.add_v4(0, 0, "all.corp:1").unwrap();
    assert_eq!(t.best_rule(LocalAddr::V4(u32::MAX)), Some(0));
    assert_eq!(t.best_rule(LocalAddr::V4(0)), Some(0));
}

#[test]
fn table_block_edges() {
    let mut t = SubnetTable::new();
    t.add_v4(v4(192, 168, 4, 0), 22, "edge.corp:1").unwrap();
    assert_eq!(t.best_rule(LocalAddr::V4(v4(192, 168, 4, 0))), Some(0));
    assert_eq!(t.best_rule(LocalAddr::V4(v4(192, 168, 7, 255))), Some(0));
    assert_eq!(t.best_rule(LocalAddr::V4(v4(192, 168, 8, 0))), None);
    assert_eq!(t.best_rule(LocalAddr::V4(v4(192, 168, 3, 255))), None);
}

#[test]
fn table_matches_only_same_family() {
    let mut t = SubnetTable::new();
    t.add_v4(0, 0, "v4.corp:1").unwrap();
    t.add_v6(0xfd00u128 << 112, 8, "v6.corp:2").unwrap();
    assert_eq!(t.best_rule(LocalAddr::V6((0xfd12u128 << 112) | 5)), Some(1));
    assert_eq!(t.best_rule(LocalAddr::V6(1)), None);
    assert_eq!(t.best_rule(LocalAddr::V4(7)), Some(0));
}

#[test]
fn table_rejects_long_prefix() {
    let mut t = SubnetTable::new();
    assert_eq!(t.add_v4(0, 33, "p.corp:1"), Err(TableError::PrefixTooLong));
    assert_eq!(t.add_v6(0, 129, "p.corp:1"), Err(TableError::PrefixTooLong));
    assert!(t.add_v6(0, 128, "p.corp:1").is_ok());
}

#[test]
fn table_rejects_upstream_without_port() {
    let mut t = SubnetTable::new();
    assert_eq!(
        t.add_v4(0, 0, "proxy.corp"),
        Err(TableError::BadUpstream(TargetError::MissingPort))
    );
    assert_eq!(t.best_rule(LocalAddr::V4(1)), None);
}

#[test]
fn repeated_resolve_gives_same_route() {
    let mut t = SubnetTable::new();
    t.add_v4(v4(10, 0, 0, 0), 8, "a.corp:1").unwrap();
    t.add_v4(v4(10, 0, 0, 0), 16, "b.corp:2").unwrap();
    let addr = LocalAddr::V4(v4(10, 0, 3, 3));
    let first = upstream_of(&t.resolve(addr));
    let second = upstream_of(&t.resolve(addr));
    assert_eq!(first, second);
    assert_eq!(first, Some(("b.corp".to_string(), 2)));
}

#[test]
fn fallback_on_empty_route_is_exhausted() {
    let mut f = Fallback::new(Vec::new());
    assert_eq!(f.next(), Attempt::Exhausted);
    assert!(f.failures_so_far().is_empty());
}

#[test]
fn fallback_skips_unsupported_kinds() {
    let route = vec![
        proxied(ProxyKind::Socks5, "s.corp", 1080),
        proxied(ProxyKind::Https, "h.corp", 443),
        proxied(ProxyKind::Http, "a.corp", 3128),
        RouteEntry::Direct,
    ];
    let mut f = Fallback::new(route);
    assert_eq!(f.next(), Attempt::Try(2));
    assert_eq!(f.failures_so_far(), &vec![Failure::Unsupported, Failure::Unsupported]);
    f.fail(Failure::Unreachable);
    assert_eq!(f.next(), Attempt::Try(3));
    f.fail(Failure::Unreachable);
    assert_eq!(f.next(), Attempt::Exhausted);
    assert_eq!(
        f.failures_so_far(),
        &vec![Failure::Unsupported, Failure::Unsupported, Failure::Unreachable, Failure::Unreachable]
    );
}

#[test]
fn fallback_with_only_unsupported_is_exhausted() {
    let mut f = Fallback::new(vec![proxied(ProxyKind::Socks, "s.corp", 1080)]);
    assert_eq!(f.next(), Attempt::Exhausted);
    assert_eq!(f.failures_so_far(), &vec![Failure::Unsupported]);
}

#[test]
fn resolver_answers_each_query_once_in_order() {
    let mut t = SubnetTable::new();
    t.add_v4(v4(10, 0, 0, 0), 8, "a.corp:1").unwrap();
    let queries: Vec<Query> = (0..20u64)
        .map(|i| Query { id: 100 + i, addr: LocalAddr::V4(if i % 2 == 0 { v4(10, 0, 0, 1) } else { 1 }) })
        .collect();
    let replies = answer_all(&t, &queries);
    assert_eq!(replies.len(), queries.len());
    for (i, (q, r)) in queries.iter().zip(replies.iter()).enumerate() {
        assert_eq!(r.id, q.id);
        assert_eq!(replies.iter().filter(|x| x.id == q.id).count(), 1);
        let expected = if i % 2 == 0 { Some(("a.corp".to_string(), 1)) } else { None };
        assert_eq!(upstream_of(&r.route), expected);
    }
}

#[test]
fn resolver_answers_single_query() {
    let t = SubnetTable::new();
    let r = answer(&t, Query { id: 9, addr: LocalAddr::V4(3) });
    assert_eq!(r.id, 9);
    assert_eq!(upstream_of(&r.route), None);
}
