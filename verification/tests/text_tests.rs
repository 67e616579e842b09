use ddns::args::Args;
use ddns::notify::notify_url;
use ddns::text::split_chars;
use ddns::text::str_eq;
use ddns::text::u64_to_dec;
use ddns::utils::Id;

#[test]
fn notify_url_substitutes_the_placeholder() {
    let url = notify_url("https://example.com/update?ip={IP_ADDRESS}", "1.2.3.4");
    assert_eq!(url, "https://example.com/update?ip=1.2.3.4");
}

#[test]
fn notify_url_substitutes_every_occurrence() {
    let url = notify_url("{IP_ADDRESS}/and/{IP_ADDRESS}", "::1");
    assert_eq!(url, "::1/and/::1");
}

#[test]
fn notify_url_without_placeholder_is_unchanged() {
    let url = notify_url("https://example.com/ping", "1.2.3.4");
    assert_eq!(url, "https://example.com/ping");
}

#[test]
fn split_keeps_empty_parts() {
    let chars: Vec<char> = "a::b:".chars().collect();
    let parts = split_chars(&chars, ':');
    let texts: Vec<String> = parts.iter().map(|p| p.iter().collect()).collect();
    assert_eq!(texts, vec!["a", "", "b", ""]);
}

#[test]
fn string_equality_is_by_characters() {
    assert!(str_eq("abc", "abc"));
    assert!(!str_eq("abc", "abd"));
    assert!(!str_eq("abc", "ab"));
    assert!(str_eq("", ""));
}

#[test]
fn renders_numbers_in_decimal() {
    assert_eq!(u64_to_dec(0), "0");
    assert_eq!(u64_to_dec(7), "7");
    assert_eq!(u64_to_dec(1234567890), "1234567890");
    assert_eq!(u64_to_dec(u64::MAX), "18446744073709551615");
}

#[test]
fn identifiers_render_as_text() {
    assert_eq!(Id::Number(105), Id::Number(105));
    assert_eq!(Id::Number(105).to_text(), "105");
    assert_eq!(Id::Text(String::from("rec-1")).to_text(), "rec-1");
    let id = Id::Text(String::from("rec-1"));
    assert_eq!(id.clone(), id);
}

#[test]
fn args_defaults_match_the_cli_defaults() {
    let args = Args::new(
        String::from("example.com"),
        String::from("home"),
        String::from("id,token"),
    );
    assert_eq!(args.domain, "example.com");
    assert_eq!(args.sub_domain, "home");
    assert_eq!(args.token, "id,token");
    assert_eq!(args.interval, 10);
    assert!(!args.ipv6);
    assert!(args.http_url.is_none());
    assert!(args.http_token.is_none());
}
