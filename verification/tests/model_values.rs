use geoping::model::{IpAddress, PingStatus};

#[test]
fn status_round_trip_time() {
    assert_eq!(PingStatus::Success { elapsed_ns: 1_500_000 }.rtt(), Some(1_500_000));
    assert_eq!(PingStatus::Timeout.rtt(), None);
    assert_eq!(PingStatus::Error("unreachable".to_string()).rtt(), None);
}

#[test]
fn address_families() {
    let v4 = IpAddress::V4(0x0808_0808);
    let v6 = IpAddress::V6(1);
    assert!(v4.is_ipv4() && !v4.is_ipv6());
    assert!(v6.is_ipv6() && !v6.is_ipv4());
}
