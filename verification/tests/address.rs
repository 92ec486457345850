use quiccat::address::{local_bind_address, select_address, SocketAddress};

fn v4(octets: u32) -> SocketAddress {
    SocketAddress::V4 { octets, port: 4433 }
}

fn v6(segments: u128) -> SocketAddress {
    SocketAddress::V6 { segments, port: 4433 }
}

#[test]
fn selects_the_only_ipv4_candidate() {
    assert_eq!(select_address(&vec![v4(0x0A000005)]), Some(v4(0x0A000005)));
}

#[test]
fn selects_the_first_of_several_ipv4_candidates() {
    let candidates = vec![v4(1), v4(2), v4(3)];
    assert_eq!(select_address(&candidates), Some(v4(1)));
}

#[test]
fn passes_over_ipv6_candidates_that_come_first() {
    let candidates = vec![v6(1), v6(2), v4(7), v4(8)];
    assert_eq!(select_address(&candidates), Some(v4(7)));
}

#[test]
fn rejects_ipv6_only_candidates() {
    let candidates = vec![v6(1), v6(2)];
    assert_eq!(select_address(&candidates), None);
}

#[test]
fn rejects_an_empty_candidate_list() {
    assert_eq!(select_address(&Vec::new()), None);
}

#[test]
fn selection_is_repeatable() {
    let candidates = vec![v6(9), v4(0xC6336401), v4(5)];
    let first = select_address(&candidates);
    let second = select_address(&candidates);
    assert_eq!(first, second);
    assert_eq!(first, Some(v4(0xC6336401)));
}

#[test]
fn selection_ignores_what_follows_the_first_ipv4() {
    let a = vec![v6(1), v4(2), v4(3)];
    let b = vec![v6(1), v4(2), v6(4), v4(5)];
    assert_eq!(select_address(&a), select_address(&b));
}

#[test]
fn address_family_and_port() {
    let a = SocketAddress::V4 { octets: 1, port: 80 };
    let b = SocketAddress::V6 { segments: 1, port: 443 };
    assert!(a.is_ipv4());
    assert!(!b.is_ipv4());
    assert_eq!(a.port(), 80);
    assert_eq!(b.port(), 443);
}

#[test]
fn local_endpoint_binds_the_wildcard_address_and_any_port() {
    let local = local_bind_address();
    assert_eq!(local, SocketAddress::V4 { octets: 0, port: 0 });
    assert!(local.is_ipv4());
    assert_eq!(local.port(), 0);
}
