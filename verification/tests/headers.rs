use httpstat::parse_header_line;
use httpstat::parse_headers;

#[test]
fn splits_at_first_colon_and_trims() {
    let h = parse_header_line("Content-Type: text/html").unwrap();
    assert_eq!(h.name, "Content-Type");
    assert_eq!(h.value, "text/html");
}

#[test]
fn keeps_later_colons_in_the_value() {
    let h = parse_header_line("Location: https://example.test:8443/a").unwrap();
    assert_eq!(h.name, "Location");
    assert_eq!(h.value, "https://example.test:8443/a");
}

#[test]
fn trims_surrounding_whitespace_only() {
    let h = parse_header_line("  X-Padded \t:  spaced  value \r\n").unwrap();
    assert_eq!(h.name, "X-Padded");
    assert_eq!(h.value, "spaced  value");
}

#[test]
fn trims_unicode_whitespace_like_the_standard_trimmer() {
    let line = "\u{A0}X-Pad\u{2009}:\u{3000}v\u{85}";
    let h = parse_header_line(line).unwrap();
    assert_eq!(h.name, "X-Pad");
    assert_eq!(h.value, "v");
    let (raw_name, raw_value) = line.split_once(':').unwrap();
    assert_eq!(h.name, raw_name.trim());
    assert_eq!(h.value, raw_value.trim());
}

#[test]
fn empty_value_is_kept() {
    let h = parse_header_line("X-Empty:").unwrap();
    assert_eq!(h.name, "X-Empty");
    assert_eq!(h.value, "");
}

#[test]
fn line_without_colon_is_malformed() {
    assert!(parse_header_line("HTTP/1.1 200 OK no colon here").is_none());
    assert!(parse_header_line("").is_none());
}

#[test]
fn header_case_is_preserved() {
    let h = parse_header_line("x-lower-CASE: MiXeD").unwrap();
    assert_eq!(h.name, "x-lower-CASE");
    assert_eq!(h.value, "MiXeD");
}

#[test]
fn block_keeps_order_and_duplicates_and_drops_malformed() {
    let lines = vec![
        String::from("X-A: 1"),
        String::from("garbage without separator"),
        String::from("X-B: 2"),
        String::from("X-A: 3"),
    ];
    let hs = parse_headers(&lines);
    assert_eq!(hs.len(), 3);
    assert_eq!(hs[0].name, "X-A");
    assert_eq!(hs[0].value, "1");
    assert_eq!(hs[1].name, "X-B");
    assert_eq!(hs[1].value, "2");
    assert_eq!(hs[2].name, "X-A");
    assert_eq!(hs[2].value, "3");
}
