use keyword_finder::cli::Cli;
use keyword_finder::cli::format_url;
use keyword_finder::cli::parse;
use keyword_finder::cli::starts_with_scheme;
use keyword_finder::cli::trim_str;

fn options(fix_urls: bool) -> Cli {
    Cli {
        urls: None,
        file: None,
        case_insensitive: false,
        fix_urls,
        retry: false,
        save: false,
        regex: "hello".to_string(),
    }
}

#[test]
fn trimming_removes_surrounding_white_space() {
    assert_eq!(trim_str("  a b  "), "a b");
    assert_eq!(trim_str("\t\nx\r\n"), "x");
    assert_eq!(trim_str("\u{00a0}y\u{2003}"), "y");
    assert_eq!(trim_str("plain"), "plain");
    assert_eq!(trim_str("   "), "");
    assert_eq!(trim_str(""), "");
}

#[test]
fn scheme_detection() {
    assert!(starts_with_scheme("http://a.test"));
    assert!(starts_with_scheme("https://a.test"));
    assert!(starts_with_scheme("http://"));
    assert!(!starts_with_scheme("httpx://a.test"));
    assert!(!starts_with_scheme("ftp://a.test"));
    assert!(!starts_with_scheme("a.test"));
    assert!(!starts_with_scheme("http:/a.test"));
    assert!(!starts_with_scheme(""));
}

#[test]
fn format_url_supplies_a_default_scheme() {
    assert_eq!(format_url("example.com"), "http://example.com".to_string());
    assert_eq!(format_url("http://example.com"), "http://example.com".to_string());
    assert_eq!(format_url("https://example.com"), "https://example.com".to_string());
}

#[test]
fn parse_trims_and_drops_empty_lines() {
    let raw = vec![
        "  http://a.test  ".to_string(),
        "".to_string(),
        "   ".to_string(),
        "http://b.test".to_string(),
    ];
    let urls = parse(&options(false), &raw);
    assert_eq!(urls, vec!["http://a.test".to_string(), "http://b.test".to_string()]);
}

#[test]
fn parse_fixes_urls_on_request() {
    let raw = vec![
        "example.com".to_string(),
        " http://x.test ".to_string(),
        "https://y.test".to_string(),
    ];
    let urls = parse(&options(true), &raw);
    assert_eq!(
        urls,
        vec![
            "http://example.com".to_string(),
            "http://x.test".to_string(),
            "https://y.test".to_string(),
        ]
    );
}

#[test]
fn parse_keeps_duplicates() {
    let raw = vec!["http://a.test".to_string(), "http://a.test".to_string()];
    let urls = parse(&options(false), &raw);
    assert_eq!(urls, vec!["http://a.test".to_string(), "http://a.test".to_string()]);
}
