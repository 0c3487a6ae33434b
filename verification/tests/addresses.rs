use alas_launcher::address::{
    backend_address, backend_error_query_params, backend_error_request_params, backend_error_url,
    backend_url, is_backend_url, parse_url, redacted_url_log, splash_url, UrlError, UrlParts,
};
use alas_launcher::platform::Platform;
use alas_launcher::text::{decimal_text, parse_u16, replace, same_text};
use alas_launcher::trust::{
    launcher_trust_secret, token_navigate_url, trust_secret_of, trusted_login_url,
    webui_navigate_url, TrustReply, TrustSession,
};

fn url(text: &str) -> UrlParts {
    parse_url(text).unwrap()
}

fn answered(status: u16, body: &str) -> TrustReply {
    TrustReply::Answered { status, body: Some(body.to_owned()) }
}

#[test]
fn backend_addresses() {
    assert_eq!(backend_url(22267), "http://127.0.0.1:22267/");
    assert_eq!(backend_url(0), "http://127.0.0.1:0/");
    assert_eq!(backend_url(65535), "http://127.0.0.1:65535/");
    assert_eq!(backend_address(8080), "127.0.0.1:8080");
    assert_eq!(trusted_login_url(22267), "http://127.0.0.1:22267/api/launcher/trusted-login");
    assert_eq!(splash_url(Platform::Windows), "http://alas-splash.localhost/");
    assert_eq!(splash_url(Platform::Android), "http://alas-splash.localhost/");
    assert_eq!(splash_url(Platform::MacOs), "alas-splash://localhost/");
    assert_eq!(splash_url(Platform::Linux), "alas-splash://localhost/");
    assert_eq!(splash_url(Platform::Other), "alas-splash://localhost/");
}

#[test]
fn numbers_are_read_as_written() {
    for n in [0u16, 7, 10, 99, 100, 22267, 65535] {
        assert_eq!(decimal_text(n), n.to_string());
        assert_eq!(parse_u16(&decimal_text(n)), Some(n));
    }
    for text in [
        "", "+", "-", "+5", "++5", "-5", "65535", "65536", "000080", "0", "5 ", " 5", "٣", "1e3",
        "99999999999999999999", "12a",
    ] {
        assert_eq!(parse_u16(text), text.parse::<u16>().ok(), "{}", text);
    }
}

#[test]
fn replacement_is_from_the_left_and_not_repeated() {
    for (text, pattern, value) in [
        ("aaa", "aa", "b"),
        ("abab", "ab", "abab"),
        ("", "x", "y"),
        ("xx", "xxx", "y"),
        ("$A$AB", "$AB", "B"),
        ("日本日", "日", ""),
    ] {
        assert_eq!(replace(text, pattern, value), text.replace(pattern, value));
    }
    assert!(same_text("a", "a"));
    assert!(!same_text("a", "A"));
}

#[test]
fn parts_of_a_url() {
    let parts = url("HTTP://LocalHost:8080/a/../b?x=1&y=a+b%26#frag");
    assert_eq!(parts.scheme, "http");
    assert_eq!(parts.host.as_deref(), Some("localhost"));
    assert_eq!(parts.port, Some(8080));
    assert_eq!(parts.effective_port, Some(8080));
    assert_eq!(parts.path, "/b");
    assert_eq!(parts.text, "http://localhost:8080/b?x=1&y=a+b%26#frag");
    assert_eq!(
        parts.query,
        vec![("x".to_owned(), "1".to_owned()), ("y".to_owned(), "a b&".to_owned())]
    );
    assert_eq!(url("http://a:80/").port, None);
    assert_eq!(url("http://a/").effective_port, Some(80));
    assert_eq!(url("https://a/").effective_port, Some(443));
    assert_eq!(url("alas-error://localhost/").effective_port, None);
    assert_eq!(url("data:text/plain,x?y").host, None);
    assert_eq!(parse_url("no url").unwrap_err(), UrlError::NotAUrl);
}

#[test]
fn logged_urls_hold_no_query() {
    assert_eq!(
        redacted_url_log(&url("http://127.0.0.1:22267/launcher-login?token=secret#x")),
        "http://127.0.0.1:22267/launcher-login"
    );
    assert_eq!(redacted_url_log(&url("https://example.com:443/p?q")), "https://example.com/p");
    assert_eq!(redacted_url_log(&url("data:text/plain,x?y")), "data:text/plain,x");
    assert_eq!(redacted_url_log(&url("mailto:x@y.z?token=abc")), "mailto:x@y.z");
    assert_eq!(redacted_url_log(&url("mailto:x@y.z#token=abc")), "mailto:x@y.z");
    assert_eq!(redacted_url_log(&url("about:blank")), "about:blank");
    assert_eq!(redacted_url_log(&url("file:///a/b?c#d")), "file:///a/b");
    let a = redacted_url_log(&url("http://h/p?a=1"));
    let b = redacted_url_log(&url("http://h/p?b=2#c"));
    assert_eq!(a, b);
}

#[test]
fn backend_urls_are_recognised() {
    assert!(is_backend_url(&url("http://127.0.0.1:22267/x?y"), 22267));
    assert!(is_backend_url(&url("https://localhost:22267/"), 22267));
    assert!(is_backend_url(&url("http://localhost/"), 80));
    assert!(is_backend_url(&url("https://127.0.0.1/"), 443));
    assert!(!is_backend_url(&url("http://127.0.0.1:22268/"), 22267));
    assert!(!is_backend_url(&url("ws://127.0.0.1:22267/"), 22267));
    assert!(!is_backend_url(&url("http://127.0.0.2:22267/"), 22267));
    assert!(!is_backend_url(&url("data:text/plain,x"), 22267));
}

#[test]
fn error_addresses_are_read_back() {
    let scheme_url = backend_error_url(Platform::Linux, 22267, "a b").unwrap();
    assert_eq!(scheme_url, "alas-error://localhost/backend?port=22267&detail=a+b");
    let http_url = backend_error_url(Platform::Windows, 80, "x&y").unwrap();
    assert_eq!(http_url, "http://alas-error.localhost/backend?port=80&detail=x%26y");
    for (address, port, detail) in [(&scheme_url, 22267, "a b"), (&http_url, 80, "x&y")] {
        assert_eq!(
            backend_error_request_params(address, "default"),
            (port, detail.to_owned())
        );
        let parts = url(address);
        assert!(!is_backend_url(&parts, port));
        assert!(!is_backend_url(&parts, 80));
    }
    assert_eq!(url(&scheme_url).scheme, "alas-error");
    assert_eq!(url(&http_url).host.as_deref(), Some("alas-error.localhost"));
}

#[test]
fn error_addresses_are_form_encoded() {
    assert_eq!(
        backend_error_url(Platform::MacOs, 9, "Az09*-._ ~+&=%/\u{e9}\u{1F600}\n\0").unwrap(),
        "alas-error://localhost/backend?port=9&detail=Az09*-._+%7E%2B%26%3D%25%2F%C3%A9%F0%9F%98%80%0A%00"
    );
    assert_eq!(
        backend_error_url(Platform::Android, 65535, "").unwrap(),
        "http://alas-error.localhost/backend?port=65535&detail="
    );
}

#[test]
fn error_parameters_have_defaults_and_the_last_one_counts() {
    assert_eq!(
        backend_error_request_params("alas-error://localhost/backend", "d"),
        (22267, "d".to_owned())
    );
    assert_eq!(backend_error_request_params("::", "d"), (22267, "d".to_owned()));
    assert_eq!(
        backend_error_request_params(
            "alas-error://localhost/backend?port=1&port=x&port=2&port=70000&detail=a&detail=b&Port=9",
            "d"
        ),
        (2, "b".to_owned())
    );
    let query = vec![
        ("detail".to_owned(), "first".to_owned()),
        ("port".to_owned(), "+17".to_owned()),
        ("other".to_owned(), "18".to_owned()),
    ];
    assert_eq!(backend_error_query_params(&query, "d"), (17, "first".to_owned()));
}

#[test]
fn the_main_window_opens_the_login_page_with_a_token() {
    assert_eq!(
        webui_navigate_url(22267, answered(200, "{\"token\":\"abc\"}")),
        "http://127.0.0.1:22267/launcher-login?token=abc"
    );
    assert_eq!(
        webui_navigate_url(1, answered(299, " {\"x\":1,\"token\":\"a\\u002db\"} ")),
        "http://127.0.0.1:1/launcher-login?token=a-b"
    );
    assert_eq!(
        token_navigate_url(9, Some("t".to_owned())),
        "http://127.0.0.1:9/launcher-login?token=t"
    );
    let target = webui_navigate_url(8080, answered(200, "{\"token\":\"abc\"}"));
    assert!(is_backend_url(&url(&target), 8080));
}

#[test]
fn the_token_is_not_logged() {
    for token in ["abc", "a?b#c", "../x", "%2e%2e/ \u{1F600}"] {
        let target = token_navigate_url(8080, Some(token.to_owned()));
        assert_eq!(redacted_url_log(&url(&target)), "http://127.0.0.1:8080/launcher-login");
        assert!(is_backend_url(&url(&target), 8080));
        let target = token_navigate_url(80, Some(token.to_owned()));
        assert_eq!(redacted_url_log(&url(&target)), "http://127.0.0.1/launcher-login");
        assert_eq!(url(&target).effective_port, Some(80));
    }
}

#[test]
fn a_very_long_token_is_not_logged() {
    let token = "\u{1F600}?".repeat(200_000);
    let target = token_navigate_url(8080, Some(token));
    assert_eq!(redacted_url_log(&url(&target)), "http://127.0.0.1:8080/launcher-login");
    assert!(is_backend_url(&url(&target), 8080));
}

#[test]
fn without_a_token_the_main_window_opens_the_first_page() {
    let first = "http://127.0.0.1:22267/";
    for reply in [
        TrustReply::Unanswered,
        TrustReply::Answered { status: 200, body: None },
        answered(199, "{\"token\":\"abc\"}"),
        answered(300, "{\"token\":\"abc\"}"),
        answered(403, "{\"token\":\"abc\"}"),
        answered(200, "no json"),
        answered(200, "[]"),
        answered(200, "{}"),
        answered(200, "{\"token\":7}"),
        answered(200, "{\"token\":\"\"}"),
    ] {
        let target = webui_navigate_url(22267, reply);
        assert_eq!(target, first);
        assert!(is_backend_url(&url(&target), 22267));
    }
    assert_eq!(token_navigate_url(22267, None), first);
    assert_eq!(token_navigate_url(22267, Some(String::new())), first);
}

#[test]
fn secrets_are_base64_of_random_bytes() {
    let mut session = TrustSession::new();
    let secret = launcher_trust_secret(&mut session);
    assert_eq!(secret.len(), 32);
    assert!(secret.chars().all(|c| c.is_ascii_alphanumeric() || c == '+' || c == '/'));
    assert_eq!(launcher_trust_secret(&mut session), secret);
    assert_ne!(launcher_trust_secret(&mut TrustSession::new()), secret);
    assert_eq!(trust_secret_of(&vec![0, 16, 131, 16, 81, 135]), "ABCDEFGH");
}
