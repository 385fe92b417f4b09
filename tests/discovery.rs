use do_dyndns::discovery::{DiscoveryScan, Request};
use do_dyndns::ipv4::{first_ipv4_line, parse_ipv4};
use do_dyndns::poll::Family;

#[test]
fn scan_asks_in_order_and_stops_when_satisfied() {
    let mut scan = DiscoveryScan::new(true, true, 2);
    assert_eq!(scan.next_request(), Some(Request { provider: 0, family: Family::Ipv4 }));
    scan.record(Family::Ipv4, None);
    assert_eq!(scan.next_request(), Some(Request { provider: 0, family: Family::Ipv6 }));
    scan.record(Family::Ipv6, Some("2001:db8::5".to_string()));
    assert_eq!(scan.next_request(), Some(Request { provider: 1, family: Family::Ipv4 }));
    scan.record(Family::Ipv4, Some("203.0.113.5".to_string()));
    assert_eq!(scan.next_request(), None);
    let found = scan.finish();
    assert_eq!(found.ipv4, Some("203.0.113.5".to_string()));
    assert_eq!(found.ipv6, Some("2001:db8::5".to_string()));
}

#[test]
fn scan_for_one_family_skips_the_other() {
    let mut scan = DiscoveryScan::new(false, true, 3);
    assert_eq!(scan.next_request(), Some(Request { provider: 0, family: Family::Ipv6 }));
    scan.record(Family::Ipv6, Some("2001:db8::5".to_string()));
    assert_eq!(scan.next_request(), None);
}

#[test]
fn scan_without_answers_yields_absence() {
    let mut scan = DiscoveryScan::new(true, false, 2);
    let mut asked = 0;
    while let Some(r) = scan.next_request() {
        assert_eq!(r.family, Family::Ipv4);
        asked += 1;
        scan.record(r.family, None);
    }
    assert_eq!(asked, 2);
    let found = scan.finish();
    assert_eq!(found.ipv4, None);
    assert_eq!(found.ipv6, None);
}

#[test]
fn first_address_line_skips_garbage() {
    assert_eq!(first_ipv4_line("not-an-ip\n203.0.113.5\n"), Some("203.0.113.5".to_string()));
    assert_eq!(first_ipv4_line("203.0.113.5"), Some("203.0.113.5".to_string()));
    assert_eq!(first_ipv4_line("x\r\n10.0.0.1\r\n"), Some("10.0.0.1".to_string()));
    assert_eq!(first_ipv4_line("<html>\n</html>\n"), None);
    assert_eq!(first_ipv4_line(""), None);
}

#[test]
fn ipv4_literals() {
    assert!(parse_ipv4("0.0.0.0"));
    assert!(parse_ipv4("255.255.255.255"));
    assert!(parse_ipv4("198.51.100.7"));
    assert!(!parse_ipv4("256.1.1.1"));
    assert!(!parse_ipv4("01.1.1.1"));
    assert!(!parse_ipv4("1.2.3"));
    assert!(!parse_ipv4("1.2.3.4.5"));
    assert!(!parse_ipv4("1..2.3"));
    assert!(!parse_ipv4("1.2.3.4 "));
    assert!(!parse_ipv4("1234.1.1.1"));
    assert!(!parse_ipv4("2001:db8::1"));
}
