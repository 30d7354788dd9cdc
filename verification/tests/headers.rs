use doh_gateway::headers::{Header, Headers};
use doh_gateway::text::{
    chars_of, eq_ignore_case, folded, text_eq, to_lower, valid_header_text,
};

fn header(name: &str, value: &str) -> Header {
    Header { name: name.to_string(), value: value.to_string() }
}

#[test]
fn new_headers_are_empty() {
    let headers = Headers::new();
    assert_eq!(headers.len(), 0);
    assert_eq!(headers.entries(), Vec::new());
    assert_eq!(headers.get("Accept"), None);
    assert!(headers.values_are_text());
}

#[test]
fn set_then_get_in_any_case() {
    let mut headers = Headers::new();
    headers.set("Content-Type", "text/plain");
    assert_eq!(headers.get("Content-Type"), Some("text/plain".to_string()));
    assert_eq!(headers.get("content-type"), Some("text/plain".to_string()));
    assert_eq!(headers.get("CONTENT-TYPE"), Some("text/plain".to_string()));
    assert_eq!(headers.get("Content_Type"), None);
    assert_eq!(headers.get("Content-Typ"), None);
    assert_eq!(headers.get(""), None);
}

#[test]
fn set_replaces_where_the_name_stood() {
    let mut headers = Headers::new();
    headers.set("A", "1");
    headers.set("B", "2");
    headers.set("C", "3");
    headers.set("b", "two");
    assert_eq!(headers.len(), 3);
    assert_eq!(headers.entries(), vec![header("A", "1"), header("b", "two"), header("C", "3")]);
    assert_eq!(headers.get("B"), Some("two".to_string()));
    assert_eq!(headers.get("a"), Some("1".to_string()));
    assert_eq!(headers.get("c"), Some("3".to_string()));
}

#[test]
fn set_leaves_other_names_alone() {
    let mut headers = Headers::new();
    headers.set("Accept", "a");
    headers.set("Accept-Encoding", "gzip");
    headers.set("accept", "b");
    assert_eq!(headers.get("Accept-Encoding"), Some("gzip".to_string()));
    assert_eq!(headers.get("Accept"), Some("b".to_string()));
    assert_eq!(headers.len(), 2);
}

#[test]
fn only_ascii_letters_are_folded() {
    let mut headers = Headers::new();
    headers.set("X-É", "1");
    assert_eq!(headers.get("x-É"), Some("1".to_string()));
    assert_eq!(headers.get("x-é"), None);
    headers.set("x-é", "2");
    assert_eq!(headers.len(), 2);
}

#[test]
fn clone_keeps_the_entries() {
    let mut headers = Headers::new();
    headers.set("A", "1");
    headers.set("B", "2");
    let copy = headers.clone();
    assert_eq!(copy, headers);
    assert_eq!(copy.entries(), vec![header("A", "1"), header("B", "2")]);
    assert_eq!(header("A", "1").clone(), header("A", "1"));
}

#[test]
fn values_are_text_checks_every_value() {
    let mut headers = Headers::new();
    headers.set("A", "plain value");
    headers.set("B", "tab\tinside");
    assert!(headers.values_are_text());
    headers.set("C", "line\nbreak");
    assert!(!headers.values_are_text());
    headers.set("C", "mended");
    assert!(headers.values_are_text());
    headers.set("a", "caf\u{e9}");
    assert!(!headers.values_are_text());
}

#[test]
fn lower_case_of_characters() {
    assert_eq!(to_lower('A'), 'a');
    assert_eq!(to_lower('Z'), 'z');
    assert_eq!(to_lower('M'), 'm');
    assert_eq!(to_lower('a'), 'a');
    assert_eq!(to_lower('@'), '@');
    assert_eq!(to_lower('['), '[');
    assert_eq!(to_lower('-'), '-');
    assert_eq!(to_lower('0'), '0');
    assert_eq!(to_lower('É'), 'É');
}

#[test]
fn folded_and_chars_of_texts() {
    assert_eq!(chars_of("aB-é"), vec!['a', 'B', '-', 'é']);
    assert_eq!(chars_of(""), Vec::<char>::new());
    assert_eq!(folded("Content-TYPE"), "content-type".chars().collect::<Vec<char>>());
    assert_eq!(folded(""), Vec::<char>::new());
}

#[test]
fn names_compare_without_case() {
    assert!(eq_ignore_case("Accept", "accept"));
    assert!(eq_ignore_case("ACCEPT", "aCcEpT"));
    assert!(eq_ignore_case("", ""));
    assert!(!eq_ignore_case("Accept", "Accep"));
    assert!(!eq_ignore_case("Accept", "Accepts"));
    assert!(!eq_ignore_case("Accept", "Accent"));
    assert!(!eq_ignore_case("a_b", "a-b"));
}

#[test]
fn texts_compare_to_the_letter() {
    assert!(text_eq("application/dns-json", "application/dns-json"));
    assert!(text_eq("", ""));
    assert!(!text_eq("application/dns-json", "Application/dns-json"));
    assert!(!text_eq("a", "ab"));
    assert!(!text_eq("ab", "a"));
    assert!(!text_eq("abc", "abd"));
}

#[test]
fn header_text_is_tab_or_printable_ascii() {
    assert!(valid_header_text(""));
    assert!(valid_header_text("max-age=3600, public"));
    assert!(valid_header_text(" ~\t"));
    assert!(!valid_header_text("a\r\nb"));
    assert!(!valid_header_text("\u{0}"));
    assert!(!valid_header_text("\u{1f}"));
    assert!(!valid_header_text("\u{7f}"));
    assert!(!valid_header_text("na\u{ef}ve"));
}
