use rusk_socks5::ip_filter::{HostAddr, IpFilter};

fn v4(a: u8, b: u8, c: u8, d: u8) -> HostAddr {
    HostAddr::V4(u32::from_be_bytes([a, b, c, d]))
}

#[test]
fn empty_whitelist_allows_everything() {
    let f = IpFilter::from_strings(&Vec::new()).unwrap();
    assert!(f.allows(&v4(192, 0, 2, 5)));
    assert!(f.allows(&v4(10, 0, 0, 1)));
    assert!(f.allows(&HostAddr::V6(1)));
}

#[test]
fn cidr_whitelist_rejects_outsiders() {
    // A connection from 192.0.2.5 is dropped under 10.0.0.0/8.
    let rules = vec!["10.0.0.0/8".to_string()];
    let f = IpFilter::from_strings(&rules).unwrap();
    assert!(!f.allows(&v4(192, 0, 2, 5)));
    assert!(f.allows(&v4(10, 0, 0, 1)));
    assert!(f.allows(&v4(10, 255, 255, 255)));
    assert!(!f.allows(&v4(11, 0, 0, 1)));
}

#[test]
fn cidr_v6_matches_family_and_prefix() {
    let rules = vec!["2001:db8::/32".to_string()];
    let f = IpFilter::from_strings(&rules).unwrap();
    let inside: u128 = 0x2001_0db8_0000_0000_0000_0000_0000_0001;
    let outside: u128 = 0x2001_0db9_0000_0000_0000_0000_0000_0001;
    assert!(f.allows(&HostAddr::V6(inside)));
    assert!(!f.allows(&HostAddr::V6(outside)));
    // An IPv4 address never matches an IPv6 network.
    assert!(!f.allows(&v4(32, 1, 13, 184)));
}

#[test]
fn wildcard_matches_segment_by_segment() {
    let rules = vec!["192.168.*.*".to_string()];
    let f = IpFilter::from_strings(&rules).unwrap();
    assert!(f.allows(&v4(192, 168, 0, 1)));
    assert!(f.allows(&v4(192, 168, 255, 254)));
    assert!(!f.allows(&v4(192, 169, 0, 1)));
    assert!(!f.allows(&v4(10, 168, 0, 1)));
    // Wildcards never match IPv6 addresses.
    assert!(!f.allows(&HostAddr::V6(0x0a00_0000_0000_0000_0000_0000_0000_0001)));
}

#[test]
fn short_wildcard_requires_matching_segment_count() {
    // "10.*" has two segments; an address renders as four, so it
    // never matches.
    let rules = vec!["10.*".to_string()];
    let f = IpFilter::from_strings(&rules).unwrap();
    assert!(!f.allows(&v4(10, 0, 0, 1)));
    let rules = vec!["10.*.*.*".to_string()];
    let f = IpFilter::from_strings(&rules).unwrap();
    assert!(f.allows(&v4(10, 0, 0, 1)));
    assert!(!f.allows(&v4(11, 0, 0, 1)));
}

#[test]
fn wildcard_literal_is_textual() {
    // "010" is a valid decimal segment but never equals the canonical
    // rendering "10".
    let rules = vec!["010.*.*.*".to_string()];
    let f = IpFilter::from_strings(&rules).unwrap();
    assert!(!f.allows(&v4(10, 0, 0, 1)));
}

#[test]
fn plain_address_acts_as_exact_wildcard() {
    // Every segment is a decimal literal: only the one address matches.
    let rules = vec!["127.0.0.1".to_string()];
    let f = IpFilter::from_strings(&rules).unwrap();
    assert!(f.allows(&v4(127, 0, 0, 1)));
    assert!(!f.allows(&v4(127, 0, 0, 2)));
}

#[test]
fn invalid_pattern_is_refused_with_message() {
    let rules = vec!["not-a-rule!".to_string()];
    let e = IpFilter::from_strings(&rules).unwrap_err();
    assert_eq!(e, "Invalid IP rule pattern: not-a-rule!");
}

#[test]
fn segment_over_255_is_refused() {
    let rules = vec!["10.0.0.256".to_string()];
    assert!(IpFilter::from_strings(&rules).is_err());
    let rules = vec!["10.0.0.255".to_string()];
    assert!(IpFilter::from_strings(&rules).is_ok());
}

#[test]
fn first_invalid_pattern_stops_construction() {
    let rules = vec![
        "10.0.0.0/8".to_string(),
        "bad pattern".to_string(),
        "192.168.*.*".to_string(),
    ];
    let e = IpFilter::from_strings(&rules).unwrap_err();
    assert_eq!(e, "Invalid IP rule pattern: bad pattern");
}

#[test]
fn any_matching_rule_allows() {
    let rules = vec!["10.0.0.0/8".to_string(), "192.168.*.*".to_string()];
    let f = IpFilter::from_strings(&rules).unwrap();
    assert!(f.allows(&v4(10, 1, 2, 3)));
    assert!(f.allows(&v4(192, 168, 7, 7)));
    assert!(!f.allows(&v4(172, 16, 0, 1)));
}

#[test]
fn add_rule_extends_a_filter() {
    let mut f = IpFilter::new();
    assert!(f.allows(&v4(8, 8, 8, 8)));
    f.add_rule("9.9.9.9/32").unwrap();
    assert!(!f.allows(&v4(8, 8, 8, 8)));
    assert!(f.allows(&v4(9, 9, 9, 9)));
}

#[test]
fn five_segment_pattern_is_refused() {
    // A wildcard pattern has one to four segments.
    let rules = vec!["1.2.3.4.5".to_string()];
    let e = IpFilter::from_strings(&rules).unwrap_err();
    assert_eq!(e, "Invalid IP rule pattern: 1.2.3.4.5");
    let rules = vec!["*.*.*.*.*".to_string()];
    assert!(IpFilter::from_strings(&rules).is_err());
}
