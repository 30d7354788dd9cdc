use doh_gateway::query::{query_has_key, room_for, target_url};

#[test]
fn key_with_a_value() {
    assert!(query_has_key("dns=AAABAAABAAAAAAAAA", "dns"));
    assert!(query_has_key("name=example.com&type=A", "name"));
    assert!(query_has_key("name=example.com&type=A", "type"));
}

#[test]
fn key_with_an_empty_value_or_none() {
    assert!(query_has_key("dns=", "dns"));
    assert!(query_has_key("dns", "dns"));
    assert!(query_has_key("dns&a=1", "dns"));
    assert!(query_has_key("a=1&dns", "dns"));
    assert!(query_has_key("a=1&dns=&b=2", "dns"));
}

#[test]
fn key_after_other_parameters() {
    assert!(query_has_key("a=1&dns=AAAB", "dns"));
    assert!(query_has_key("a=1&b=2&dns=AAAB&c=3", "dns"));
    assert!(query_has_key("&dns=AAAB", "dns"));
    assert!(query_has_key("xdns=1&dns=2", "dns"));
}

#[test]
fn longer_and_shorter_keys_do_not_count() {
    assert!(!query_has_key("xdns=AAAB", "dns"));
    assert!(!query_has_key("dnsx=AAAB", "dns"));
    assert!(!query_has_key("dn=AAAB", "dns"));
    assert!(!query_has_key("dn", "dns"));
    assert!(!query_has_key("d", "dns"));
    assert!(!query_has_key("", "dns"));
}

#[test]
fn key_inside_a_value_does_not_count() {
    assert!(!query_has_key("name=dns", "dns"));
    assert!(!query_has_key("name=dns=", "dns"));
    assert!(!query_has_key("a=1&name=x.dns=y", "dns"));
    assert!(!query_has_key("a==dns=1", "dns"));
}

#[test]
fn key_is_compared_to_the_letter() {
    assert!(!query_has_key("DNS=AAAB", "dns"));
    assert!(!query_has_key("Dns=AAAB", "dns"));
    assert!(!query_has_key("d%6Es=AAAB", "dns"));
    assert!(!query_has_key("dns;a=1", "dns"));
}

#[test]
fn empty_key_names_an_empty_parameter_name() {
    assert!(query_has_key("", ""));
    assert!(query_has_key("=1", ""));
    assert!(query_has_key("a=1&", ""));
    assert!(query_has_key("a=1&&b=2", ""));
    assert!(!query_has_key("a=1", ""));
}

#[test]
fn room_is_counted_against_32_bits() {
    assert!(room_for(0, 0));
    assert!(room_for(25, 100));
    assert!(room_for(25, 357_913_932));
    assert!(!room_for(25, 357_913_933));
    assert!(room_for(0, 357_913_941));
    assert!(!room_for(0, 357_913_942));
    assert!(room_for(1_073_741_823, 0));
    assert!(!room_for(1_073_741_824, 0));
    assert!(room_for(1_073_741_820, 1));
    assert!(!room_for(1_073_741_821, 1));
    assert!(!room_for(usize::MAX, 0));
    assert!(!room_for(0, usize::MAX));
    assert!(!room_for(usize::MAX, usize::MAX));
}

#[test]
fn target_is_the_upstream_with_the_query() {
    let upstream = "https://1.1.1.1/dns-query";
    assert_eq!(target_url(upstream, &None), Some(upstream.to_string()));
    assert_eq!(
        target_url(upstream, &Some("dns=AAAB".to_string())),
        Some("https://1.1.1.1/dns-query?dns=AAAB".to_string())
    );
    assert_eq!(target_url(upstream, &Some(String::new())), Some(format!("{}?", upstream)));
    assert_eq!(
        target_url("https://r.example/q?old=1#part", &Some("new=2".to_string())),
        Some("https://r.example/q?new=2#part".to_string())
    );
    assert_eq!(
        target_url("https://r.example/q?old=1#part", &None),
        Some("https://r.example/q#part".to_string())
    );
}

#[test]
fn target_of_an_upstream_that_does_not_parse() {
    assert_eq!(target_url("not a url", &None), None);
    assert_eq!(target_url("not a url", &Some("dns=AAAB".to_string())), None);
    assert_eq!(target_url("", &Some(String::new())), None);
    assert_eq!(target_url("/dns-query", &Some("dns=AAAB".to_string())), None);
}

#[test]
fn target_with_a_long_query() {
    let query = "A".repeat(2_000_000);
    let built = target_url("https://1.1.1.1/dns-query", &Some(query.clone())).unwrap();
    assert_eq!(built, format!("https://1.1.1.1/dns-query?{}", query));
    let wide = "\u{e9}".repeat(500_000);
    let built = target_url("https://1.1.1.1/dns-query", &Some(wide)).unwrap();
    assert_eq!(built, format!("https://1.1.1.1/dns-query?{}", "%C3%A9".repeat(500_000)));
}

#[test]
fn target_without_room_for_the_query() {
    let query = "A".repeat(357_913_933);
    assert_eq!(target_url("https://1.1.1.1/dns-query", &Some(query)), None);
}
