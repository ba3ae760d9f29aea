use obsidian_uri::{ObsidianUri, Parameter};

fn value_in_link(raw: &str) -> String {
    let uri = ObsidianUri::action("a")
        .add_parameter("k".to_string(), raw.to_string())
        .build();
    uri.strip_prefix("obsidian://a?k=").unwrap().to_string()
}

#[test]
fn parameter_renders_key_and_encoded_value() {
    let p = Parameter::new("file".to_string(), "my note".to_string());
    assert_eq!(p.to_string(), "file=my%20note");
}

#[test]
fn parameter_accepts_empty_strings() {
    assert_eq!(Parameter::new(String::new(), String::new()).to_string(), "=");
    assert_eq!(Parameter::new("k".to_string(), String::new()).to_string(), "k=");
    assert_eq!(Parameter::new(String::new(), "v".to_string()).to_string(), "=v");
}

#[test]
fn parameter_key_is_not_encoded() {
    let p = Parameter::new("a b/c".to_string(), "a b/c".to_string());
    assert_eq!(p.to_string(), "a b/c=a%20b%2Fc");
}

#[test]
fn unreserved_characters_pass_through() {
    let raw = "ABCDEFGHIJKLMNOPQRSTUVWXYZabcdefghijklmnopqrstuvwxyz0123456789-_.~";
    assert_eq!(value_in_link(raw), raw);
}

#[test]
fn reserved_characters_are_escaped() {
    assert_eq!(value_in_link(" "), "%20");
    assert_eq!(value_in_link("&"), "%26");
    assert_eq!(value_in_link("="), "%3D");
    assert_eq!(value_in_link("?"), "%3F");
    assert_eq!(value_in_link("#"), "%23");
    assert_eq!(value_in_link("%"), "%25");
    assert_eq!(value_in_link(" &=?#%"), "%20%26%3D%3F%23%25");
}

#[test]
fn other_ascii_is_escaped_with_upper_case_digits() {
    assert_eq!(value_in_link("/"), "%2F");
    assert_eq!(value_in_link("+"), "%2B");
    assert_eq!(value_in_link(":"), "%3A");
    assert_eq!(value_in_link("\n"), "%0A");
    assert_eq!(value_in_link("\u{0}"), "%00");
    assert_eq!(value_in_link("\u{7f}"), "%7F");
    assert_eq!(value_in_link("a/b c"), "a%2Fb%20c");
}

#[test]
fn bytes_next_to_the_unreserved_ranges_are_escaped() {
    assert_eq!(value_in_link("/0"), "%2F0");
    assert_eq!(value_in_link("9:"), "9%3A");
    assert_eq!(value_in_link("@A"), "%40A");
    assert_eq!(value_in_link("Z["), "Z%5B");
    assert_eq!(value_in_link("`a"), "%60a");
    assert_eq!(value_in_link("z{"), "z%7B");
    assert_eq!(value_in_link(","), "%2C");
    assert_eq!(value_in_link("^"), "%5E");
    assert_eq!(value_in_link("}"), "%7D");
}

#[test]
fn text_outside_ascii_is_escaped_byte_by_byte() {
    assert_eq!(value_in_link("\u{e9}"), "%C3%A9");
    assert_eq!(value_in_link("\u{ff}"), "%C3%BF");
    assert_eq!(value_in_link("\u{20ac}"), "%E2%82%AC");
    assert_eq!(value_in_link("\u{1f47e}"), "%F0%9F%91%BE");
    assert_eq!(
        value_in_link("\u{1f47e} Exterminate!"),
        "%F0%9F%91%BE%20Exterminate%21"
    );
}

#[test]
fn encoding_is_applied_once() {
    assert_eq!(value_in_link("%20"), "%2520");
    assert_eq!(value_in_link("test%20test"), "test%2520test");
}

#[test]
fn encoded_value_holds_only_unreserved_characters_and_escapes() {
    let raw = "a b&c=d?e#f%g/h\u{e9}\u{1f47e}~";
    let encoded = value_in_link(raw);
    let chars: Vec<char> = encoded.chars().collect();
    let mut i = 0;
    while i < chars.len() {
        let c = chars[i];
        if c == '%' {
            assert!(i + 2 < chars.len());
            assert!(matches!(chars[i + 1], '0'..='9' | 'A'..='F'));
            assert!(matches!(chars[i + 2], '0'..='9' | 'A'..='F'));
            i += 3;
        } else {
            assert!(matches!(c, '0'..='9' | 'A'..='Z' | 'a'..='z' | '-' | '.' | '_' | '~'));
            i += 1;
        }
    }
}

#[test]
fn decoding_gives_the_value_back() {
    let values = [
        "",
        "test",
        "test test",
        " &=?#%",
        "%20",
        "a+b",
        "inbox/today.md",
        "caf\u{e9} \u{20ac}5 \u{1f47e}",
        "line\nbreak\ttab",
    ];
    for raw in values {
        let encoded = value_in_link(raw);
        let decoded = urlencoding::decode(&encoded).unwrap();
        assert_eq!(decoded, raw);
    }
}
