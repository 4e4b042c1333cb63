use ktls::Endpoint;
use ktls::PendingConns;

fn ep(ip: u128, port: u16) -> Endpoint {
    Endpoint { v6: false, ip, port }
}

#[test]
fn claims_the_matching_connection() {
    let mut q = PendingConns::new();
    q.push(0, ep(1, 1000));
    q.push(1, ep(1, 2000));
    q.push(2, ep(1, 3000));
    assert_eq!(q.claim(ep(1, 2000)), Some(1));
    assert_eq!(q.len(), 2);
    assert_eq!(q.claim(ep(1, 1000)), Some(0));
    assert_eq!(q.claim(ep(1, 3000)), Some(2));
    assert_eq!(q.len(), 0);
}

#[test]
fn keeps_unmatched_connections_for_later() {
    let mut q = PendingConns::new();
    q.push(7, ep(9, 1));
    q.push(8, ep(9, 2));
    assert_eq!(q.claim(ep(9, 3)), None);
    assert_eq!(q.len(), 2);
    assert_eq!(q.claim(ep(9, 2)), Some(8));
    assert_eq!(q.claim(ep(9, 1)), Some(7));
}

#[test]
fn claims_the_earliest_of_equal_peers() {
    let mut q = PendingConns::new();
    q.push(10, ep(5, 5));
    q.push(11, ep(5, 5));
    assert_eq!(q.claim(ep(5, 5)), Some(10));
    assert_eq!(q.claim(ep(5, 5)), Some(11));
    assert_eq!(q.claim(ep(5, 5)), None);
}

#[test]
fn endpoints_compare_by_family_address_and_port() {
    assert_eq!(ep(1, 2), ep(1, 2));
    assert_ne!(ep(1, 2), ep(1, 3));
    assert_ne!(ep(1, 2), ep(2, 2));
    assert_ne!(Endpoint { v6: true, ip: 1, port: 2 }, ep(1, 2));
}
