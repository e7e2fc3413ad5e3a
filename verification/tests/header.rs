use bearer_auth::header::{find_authorization, is_authorization};

fn pair(name: &str, value: &str) -> (String, String) {
    (String::from(name), String::from(value))
}

#[test]
fn name_matches_in_any_case() {
    for name in ["Authorization", "authorization", "AUTHORIZATION", "AuthoriZation"] {
        assert!(is_authorization(name));
    }
}

#[test]
fn other_names_do_not_match() {
    for name in [
        "",
        "Authorizatio",
        "Authorizations",
        "Authorisation",
        "Authorization:",
        "Proxy-Authorization",
        "\u{c1}uthorization",
        "authorizati\u{f6}n",
        "\u{212a}uthorization",
    ] {
        assert!(!is_authorization(name));
    }
}

#[test]
fn lookup_returns_the_first_match() {
    let headers = vec![
        pair("Host", "example.org"),
        pair("AUTHORIZATION", "first"),
        pair("Authorization", "second"),
    ];
    assert_eq!(find_authorization(&headers), Some("first"));
}

#[test]
fn lookup_finds_nothing_among_other_headers() {
    assert_eq!(find_authorization(&Vec::new()), None);
    assert_eq!(find_authorization(&vec![pair("Host", "example.org"), pair("Accept", "*/*")]), None);
}

#[test]
fn lookup_returns_the_value_unchanged() {
    let headers = vec![pair("authorization", " Bearer  x \u{e9}")];
    assert_eq!(find_authorization(&headers), Some(" Bearer  x \u{e9}"));
}
