use codex_mcp_client::header::{authorization, collect_headers, parse_header, Header, HeaderError};
use reqwest::header::{HeaderMap, HeaderValue, AUTHORIZATION};

#[test]
fn a_header_without_a_colon_is_refused() {
    let error = parse_header("Accept").unwrap_err();
    assert!(matches!(&error, HeaderError::MissingColon { got } if got == "Accept"));
    assert_eq!(error.message(), "expected NAME:VALUE, got Accept");
}

#[test]
fn a_header_is_read_and_trimmed() {
    let header = parse_header(" X-Trace \t:  a:b  ").unwrap();
    assert_eq!(header.name(), "x-trace");
    assert_eq!(header.value(), b"a:b");
}

#[test]
fn a_written_header_is_read_back() {
    let header = parse_header("x-a!#$%&'*+-.^_`|~9:v w").unwrap();
    assert_eq!(header.name(), "x-a!#$%&'*+-.^_`|~9");
    assert_eq!(header.value(), b"v w");
}

#[test]
fn header_names_ignore_case() {
    let first = parse_header("Content-TYPE:x").unwrap();
    let second = parse_header("content-type:x").unwrap();
    assert_eq!(first.name(), second.name());
    assert_eq!(first.value(), second.value());
}

#[test]
fn an_empty_value_is_a_value() {
    let header = parse_header("x-empty:").unwrap();
    assert_eq!(header.name(), "x-empty");
    assert_eq!(header.value(), b"");
}

#[test]
fn values_keep_their_utf8_bytes() {
    let header = parse_header("x-name: \u{e9}\ta").unwrap();
    assert_eq!(header.value(), "\u{e9}\ta".as_bytes());
}

#[test]
fn invalid_names_are_refused_with_the_text_before_the_colon() {
    let error = parse_header(" b\u{e9}d :v").unwrap_err();
    assert!(matches!(&error, HeaderError::InvalidName { name, .. } if name == " b\u{e9}d "));
    assert_eq!(error.message(), "invalid header name ` b\u{e9}d `: invalid HTTP header name");
    assert_eq!(
        parse_header(":v").unwrap_err().message(),
        "invalid header name ``: invalid HTTP header name"
    );
    assert!(parse_header("a b:v").is_err());
    assert!(parse_header("a\0:v").is_err());
}

#[test]
fn names_of_any_token_length_up_to_the_limit_are_taken() {
    for len in [1_usize, 63, 64, 65, 1000, 65535] {
        let text = format!("{}:v", "A".repeat(len));
        assert_eq!(parse_header(&text).unwrap().name(), "a".repeat(len));
    }
    assert!(parse_header(&format!("{}:v", "a".repeat(65536))).is_err());
    assert!(parse_header(&format!("{}(:v", "a".repeat(100))).is_err());
}

#[test]
fn the_characters_of_names_and_values_are_told_apart() {
    for code in 0..0x300_u32 {
        let c = char::from_u32(code).unwrap();
        if c == ':' {
            continue;
        }
        let token = c.is_ascii_alphanumeric() || "!#$%&'*+-.^_`|~".contains(c);
        assert_eq!(parse_header(&format!("x{c}x:v")).is_ok(), token, "name with U+{code:04X}");
        let allowed = c == '\t' || (c >= ' ' && c != '\u{7f}');
        assert_eq!(parse_header(&format!("x:v{c}v")).is_ok(), allowed, "value with U+{code:04X}");
    }
}

#[test]
fn invalid_values_are_refused_with_the_text_after_the_colon() {
    let error = parse_header("x: a\u{7f}b").unwrap_err();
    assert!(matches!(&error, HeaderError::InvalidValue { value, .. } if value == " a\u{7f}b"));
    assert_eq!(error.message(), "invalid header value ` a\u{7f}b`: failed to parse header value");
}

#[test]
fn the_name_is_looked_at_before_the_value() {
    assert!(matches!(parse_header("b d:\0"), Err(HeaderError::InvalidName { .. })));
}

#[test]
fn of_two_headers_with_one_name_the_last_one_counts() {
    let headers = vec![
        parse_header("X-A: 1").unwrap(),
        parse_header("x-b: 2").unwrap(),
        parse_header("x-a: 3").unwrap(),
    ];
    let map = collect_headers(&headers).unwrap();
    assert_eq!(map.len(), 2);
    assert_eq!(map.get("x-a").unwrap(), "3");
    assert_eq!(map.get_all("x-a").iter().count(), 1);
    assert_eq!(map.get("x-b").unwrap(), "2");
}

#[test]
fn no_headers_give_an_empty_map() {
    assert!(collect_headers(&Vec::new()).unwrap().is_empty());
}

fn numbered(count: usize) -> Vec<Header> {
    (0..count).map(|i| parse_header(&format!("x-{i}: {i}")).unwrap()).collect()
}

#[test]
fn six_thousand_headers_fit() {
    let map = collect_headers(&numbered(6554)).unwrap();
    assert_eq!(map.len(), 6554);
    assert_eq!(map.get("x-6553").unwrap(), "6553");
}

#[test]
fn thirty_thousand_headers_do_not_fit() {
    assert!(collect_headers(&numbered(30000)).is_err());
}

#[test]
fn the_authorization_is_found_whatever_its_case() {
    let map = collect_headers(&vec![parse_header("AUTHORIZATION:  Bearer t ").unwrap()]).unwrap();
    assert_eq!(authorization(&map).as_deref(), Some("Bearer t"));
}

#[test]
fn there_may_be_no_authorization() {
    let map = collect_headers(&vec![parse_header("x-a: b").unwrap()]).unwrap();
    assert_eq!(authorization(&map), None);
    assert_eq!(authorization(&HeaderMap::new()), None);
}

#[test]
fn an_authorization_that_is_not_ascii_is_passed_over() {
    let map = collect_headers(&vec![parse_header("authorization: \u{e9}").unwrap()]).unwrap();
    assert_eq!(authorization(&map), None);
    let mut map = HeaderMap::new();
    map.insert(AUTHORIZATION, HeaderValue::from_bytes(b"\xff").unwrap());
    assert_eq!(authorization(&map), None);
}

#[test]
fn of_several_authorizations_the_first_is_taken() {
    let mut map = HeaderMap::new();
    map.append(AUTHORIZATION, HeaderValue::from_static("one"));
    map.append(AUTHORIZATION, HeaderValue::from_static("two"));
    assert_eq!(authorization(&map).as_deref(), Some("one"));
}

#[test]
fn many_headers_with_few_names_fit() {
    let headers = (0..10000).map(|i| parse_header(&format!("x-{}: {i}", i % 3)).unwrap()).collect();
    let map = collect_headers(&headers).unwrap();
    assert_eq!(map.len(), 3);
    assert_eq!(map.get("x-0").unwrap(), "9999");
}

#[test]
fn a_full_map_takes_no_header() {
    assert_eq!(collect_headers(&numbered(24577)).unwrap_err().reason, "MaxSizeReached");
}

#[test]
fn a_copy_of_a_header_says_the_same() {
    let header = parse_header("X-A: b").unwrap();
    let copy = header.clone();
    assert_eq!(copy.name(), "x-a");
    assert_eq!(copy.value(), b"b");
}

#[test]
fn whitespace_around_name_and_value_is_dropped() {
    let header = parse_header("\u{2003}X-A\t:\u{a0} b c \n").unwrap();
    assert_eq!(header.name(), "x-a");
    assert_eq!(header.value(), b"b c");
}
