use tca::{parse_base24, strip_inline_comment};
use tca::base24::parse_line;

#[test]
fn parse_simple_key_value() {
    let input = b"scheme: \"My Theme\"\nauthor: \"Ada\"\nbase00: \"1e1e2e\"\n";
    let slots = parse_base24(&input[..]).unwrap();
    assert_eq!(slots.get("scheme").map(String::as_str), Some("My Theme"));
    assert_eq!(slots.get("author").map(String::as_str), Some("Ada"));
    assert_eq!(slots.get("base00").map(String::as_str), Some("1e1e2e"));
}

#[test]
fn parse_skips_blank_lines_and_comments() {
    let input = b"# comment\n\nscheme: \"X\"\n";
    let slots = parse_base24(&input[..]).unwrap();
    assert_eq!(slots.len(), 1);
}

#[test]
fn parse_strips_inline_comment() {
    let input = b"base00: \"aabbcc\" # background\n";
    let slots = parse_base24(&input[..]).unwrap();
    assert_eq!(slots.get("base00").map(String::as_str), Some("aabbcc"));
}

#[test]
fn parse_keys_are_lowercased() {
    let input = b"BASE00: \"aabbcc\"\n";
    let slots = parse_base24(&input[..]).unwrap();
    assert!(slots.contains_key("base00"));
}

#[test]
fn parse_document_separator_is_skipped() {
    let input = b"---\nscheme: \"Y\"\n";
    let slots = parse_base24(&input[..]).unwrap();
    assert_eq!(slots.len(), 1);
}

#[test]
fn parse_later_line_replaces_earlier() {
    let input = b"base00: \"111111\"\nBase00: '222222'\n";
    let slots = parse_base24(&input[..]).unwrap();
    assert_eq!(slots.len(), 1);
    assert_eq!(slots.get("base00").map(String::as_str), Some("222222"));
}

#[test]
fn parse_crlf_line_endings() {
    let input = b"scheme: \"Z\"\r\nauthor: 'B'\r\n";
    let slots = parse_base24(&input[..]).unwrap();
    assert_eq!(slots.get("scheme").map(String::as_str), Some("Z"));
    assert_eq!(slots.get("author").map(String::as_str), Some("B"));
}

#[test]
fn parse_rejects_invalid_utf8() {
    let input = b"scheme: \"\xff\"\n";
    assert!(parse_base24(&input[..]).is_err());
}

#[test]
fn parse_empty_input() {
    let slots = parse_base24(&b""[..]).unwrap();
    assert_eq!(slots.len(), 0);
}

#[test]
fn strip_inline_comment_keeps_hash_inside_quotes() {
    assert_eq!(strip_inline_comment("\"a # b\" # c"), "\"a # b\" ");
    assert_eq!(strip_inline_comment("'x#y'"), "'x#y'");
    assert_eq!(strip_inline_comment("value # note"), "value ");
    assert_eq!(strip_inline_comment("# all comment"), "");
}

#[test]
fn parse_line_splits_at_first_colon() {
    let (k, v) = parse_line("  Base0A : \"ebcb8b\"  ").unwrap();
    assert_eq!(k, "base0a");
    assert_eq!(v, "ebcb8b");
    let (k, v) = parse_line("url: http://x").unwrap();
    assert_eq!(k, "url");
    assert_eq!(v, "http://x");
    assert!(parse_line("---").is_none());
    assert!(parse_line("   ").is_none());
    assert!(parse_line("# note: x").is_none());
}
