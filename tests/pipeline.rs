use links::dedup::dedup_first_seen;
use links::format::{format_line, format_lines};
use links::input::decode_input;
use links::pipeline::{extract_links, hrefs_present, links_from, Error};

const THREE_ANCHORS: &str = r#"<a href="/x">A</a><a href="/x">B</a><a href="/y">C</a>"#;

fn strings(v: &[&str]) -> Vec<String> {
    v.iter().map(|s| s.to_string()).collect()
}

#[test]
fn default_selector_dedups_in_order() {
    let r = extract_links(THREE_ANCHORS, None, None).unwrap();
    assert_eq!(r, strings(&["/x", "/y"]));
}

#[test]
fn base_is_prefixed_to_each_link() {
    let r = extract_links(THREE_ANCHORS, None, Some("https://e.com")).unwrap();
    assert_eq!(r, strings(&["https://e.com/x", "https://e.com/y"]));
}

#[test]
fn anchor_without_href_gives_nothing() {
    let r = extract_links(r#"<a name="top">Top</a>"#, None, None).unwrap();
    assert!(r.is_empty());
}

#[test]
fn malformed_selector_is_an_error() {
    let r = extract_links(THREE_ANCHORS, Some(".nope["), None);
    assert!(matches!(r, Err(Error::Scraper(_))));
}

#[test]
fn same_href_on_different_tags_is_emitted_once() {
    let text = r#"<a href="/same">A</a><link href="/same"><a href="/other">B</a>"#;
    let r = extract_links(text, Some("a, link"), None).unwrap();
    assert_eq!(r, strings(&["/same", "/other"]));
}

#[test]
fn empty_input_gives_no_lines() {
    let r = extract_links("", None, None).unwrap();
    assert!(r.is_empty());
    let r = extract_links("", None, Some("https://e.com")).unwrap();
    assert!(r.is_empty());
}

#[test]
fn running_twice_gives_the_same_lines() {
    let text = r#"<p><a href="/b">1</a></p><a href="/a">2</a><a href="/b">3</a>"#;
    let first = extract_links(text, None, Some("h:")).unwrap();
    let second = extract_links(text, None, Some("h:")).unwrap();
    assert_eq!(first, second);
    assert_eq!(first, strings(&["h:/b", "h:/a"]));
}

#[test]
fn output_has_no_duplicates() {
    let text = r#"<a href="1"></a><a href="2"></a><a href="1"></a><a href="1"></a><a href="2"></a><a href="3"></a>"#;
    let r = extract_links(text, None, None).unwrap();
    assert_eq!(r, strings(&["1", "2", "3"]));
}

#[test]
fn order_follows_first_appearance_in_document_order() {
    let text = r#"<div><p><a href="/b">x</a></p></div><a href="/a">y</a><a href="/b">z</a><a href="/c">w</a><a href="/a">v</a>"#;
    let r = extract_links(text, None, None).unwrap();
    assert_eq!(r, strings(&["/b", "/a", "/c"]));
}

#[test]
fn empty_href_is_kept_and_missing_href_is_skipped() {
    let text = r#"<a name="n">1</a><a href="">2</a><a>3</a><a href="/z">4</a>"#;
    let r = extract_links(text, None, Some("B")).unwrap();
    assert_eq!(r, strings(&["B", "B/z"]));
}

#[test]
fn values_differing_in_case_or_space_are_distinct() {
    let text = r#"<a href="/x">1</a><a href="/X">2</a><a href="/x ">3</a><a href="/x">4</a>"#;
    let r = extract_links(text, None, None).unwrap();
    assert_eq!(r, strings(&["/x", "/X", "/x "]));
}

#[test]
fn class_selector_filters_elements() {
    let text = r#"<a class="keep" href="/1">1</a><a href="/2">2</a><span class="keep" href="/3">3</span>"#;
    let r = extract_links(text, Some(".keep"), None).unwrap();
    assert_eq!(r, strings(&["/1", "/3"]));
}

#[test]
fn malformed_markup_is_still_parsed() {
    let text = r#"<div><a href="/open">unclosed<p><a href="/next">"#;
    let r = extract_links(text, None, None).unwrap();
    assert_eq!(r, strings(&["/open", "/next"]));
}

#[test]
fn links_from_skips_absent_values() {
    let attrs = vec![None, Some("/x".to_string()), None, Some("/x".to_string()), Some("/y".to_string())];
    assert_eq!(links_from(&attrs, None), strings(&["/x", "/y"]));
    assert_eq!(links_from(&attrs, Some("u")), strings(&["u/x", "u/y"]));
    assert!(links_from(&vec![None, None], None).is_empty());
    assert!(links_from(&Vec::new(), Some("u")).is_empty());
}

#[test]
fn hrefs_present_keeps_order_and_empty_strings() {
    let attrs = vec![Some("b".to_string()), None, Some(String::new()), Some("b".to_string())];
    assert_eq!(hrefs_present(&attrs), strings(&["b", "", "b"]));
}

#[test]
fn dedup_keeps_first_occurrences() {
    let v = strings(&["c", "a", "c", "b", "a", "c"]);
    assert_eq!(dedup_first_seen(&v), strings(&["c", "a", "b"]));
    assert!(dedup_first_seen(&Vec::new()).is_empty());
    assert_eq!(dedup_first_seen(&strings(&["", ""])), strings(&[""]));
}

#[test]
fn format_concatenates_without_separator() {
    assert_eq!(format_line(Some("https://e.com"), "/x"), "https://e.com/x");
    assert_eq!(format_line(Some("https://e.com/"), "/x"), "https://e.com//x");
    assert_eq!(format_line(None, "/x"), "/x");
    assert_eq!(format_line(Some(""), "/x"), "/x");
    assert_eq!(format_lines(Some("p"), &strings(&["1", "2"])), strings(&["p1", "p2"]));
    assert_eq!(format_lines(None, &strings(&["1", "2"])), strings(&["1", "2"]));
}

#[test]
fn decode_replaces_invalid_bytes() {
    assert_eq!(decode_input(b"<a href=\"/x\">"), "<a href=\"/x\">");
    assert_eq!(decode_input(&[b'a', 0xff, b'b']), "a\u{FFFD}b");
    assert_eq!(decode_input(&[]), "");
    assert_eq!(decode_input("é".as_bytes()), "é");
}

#[test]
fn decoded_input_runs_through_the_pipeline() {
    let mut bytes = b"<a href=\"/x\">".to_vec();
    bytes.push(0xfe);
    bytes.extend_from_slice(b"</a><a href=\"/x\"></a>");
    let text = decode_input(&bytes);
    let r = extract_links(&text, None, None).unwrap();
    assert_eq!(r, strings(&["/x"]));
}
