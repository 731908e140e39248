use boru::link_preview::{
    can_truncate_url, find_all_urls, find_first_url, is_url_only_message, parse_url_segments,
    split_segments, truncate_url, unique_urls, TextSegment,
};
use boru::url_match::find_urls;

#[test]
fn test_parse_url_segments_no_urls() {
    let segments = parse_url_segments("Hello world");
    assert_eq!(segments.len(), 1);
    match &segments[0] {
        TextSegment::Text(t) => assert_eq!(t, "Hello world"),
        _ => panic!("expected Text"),
    }
}

#[test]
fn test_parse_url_segments_single_url() {
    let segments = parse_url_segments("Check this: https://example.com/page");
    assert_eq!(segments.len(), 2);
    assert!(matches!(&segments[0], TextSegment::Text(t) if t == "Check this: "));
    assert!(matches!(&segments[1], TextSegment::Url(u) if u == "https://example.com/page"));
}

#[test]
fn test_parse_url_segments_multiple_urls() {
    let segments = parse_url_segments("A https://first.com B https://second.com C");
    assert_eq!(segments.len(), 5);
    assert!(matches!(&segments[0], TextSegment::Text(t) if t == "A "));
    assert!(matches!(&segments[1], TextSegment::Url(u) if u == "https://first.com"));
    assert!(matches!(&segments[2], TextSegment::Text(t) if t == " B "));
    assert!(matches!(&segments[3], TextSegment::Url(u) if u == "https://second.com"));
    assert!(matches!(&segments[4], TextSegment::Text(t) if t == " C"));
}

#[test]
fn test_parse_url_segments_url_at_start() {
    let segments = parse_url_segments("https://example.com is cool");
    assert_eq!(segments.len(), 2);
    assert!(matches!(&segments[0], TextSegment::Url(u) if u == "https://example.com"));
    assert!(matches!(&segments[1], TextSegment::Text(t) if t == " is cool"));
}

#[test]
fn test_parse_url_segments_url_at_end() {
    let segments = parse_url_segments("Visit https://example.com");
    assert_eq!(segments.len(), 2);
    assert!(matches!(&segments[0], TextSegment::Text(t) if t == "Visit "));
    assert!(matches!(&segments[1], TextSegment::Url(u) if u == "https://example.com"));
}

#[test]
fn segments_keep_the_text_between_urls() {
    let body = "Grüße: https://a.com/ä, und https://b.com";
    let mut joined = String::new();
    for segment in parse_url_segments(body) {
        match segment {
            TextSegment::Text(t) => joined.push_str(&t),
            TextSegment::Url(u) => joined.push_str(&u),
        }
    }
    assert_eq!(joined, body);
    let nothing = parse_url_segments("");
    assert_eq!(nothing.len(), 1);
    assert!(matches!(&nothing[0], TextSegment::Text(t) if t.is_empty()));
}

#[test]
fn segments_follow_the_given_ranges() {
    let segments = split_segments("abcdef", &vec![(1, 3), (3, 4)]);
    assert_eq!(segments.len(), 4);
    assert!(matches!(&segments[0], TextSegment::Text(t) if t == "a"));
    assert!(matches!(&segments[1], TextSegment::Url(u) if u == "bc"));
    assert!(matches!(&segments[2], TextSegment::Url(u) if u == "d"));
    assert!(matches!(&segments[3], TextSegment::Text(t) if t == "ef"));
}

#[test]
fn test_is_url_only_message_true() {
    assert!(is_url_only_message("https://example.com"));
    assert!(is_url_only_message("  https://example.com  "));
}

#[test]
fn test_is_url_only_message_false() {
    assert!(!is_url_only_message(""));
    assert!(!is_url_only_message("hello https://example.com"));
    assert!(!is_url_only_message("https://example.com hello"));
    assert!(!is_url_only_message("https://a.com https://b.com"));
}

#[test]
fn test_truncate_url_short() {
    let url = "https://example.com/short";
    assert!(can_truncate_url(url, 100));
    assert_eq!(truncate_url(url, 100), url);
}

#[test]
fn test_truncate_url_long() {
    let url = "https://example.com/very/long/path/that/should/be/truncated/for/display";
    assert!(can_truncate_url(url, 50));
    let truncated = truncate_url(url, 50);
    assert!(truncated.len() <= 50);
    assert!(truncated.starts_with("https://example.com"));
}

#[test]
fn test_find_first_url() {
    assert_eq!(
        find_first_url("Visit https://example.com/page and https://other.com").as_deref(),
        Some("https://example.com/page")
    );
    assert_eq!(find_first_url("No URLs here"), None);
}

#[test]
fn test_find_all_urls() {
    let urls = find_all_urls("A https://a.com B https://b.com C https://a.com");
    assert_eq!(urls.len(), 2);
    assert!(urls.contains(&"https://a.com".to_string()));
    assert!(urls.contains(&"https://b.com".to_string()));
}

#[test]
fn found_urls_are_sorted_and_distinct() {
    let urls = find_all_urls("https://c.com https://a.com https://b.com https://a.com");
    assert_eq!(urls, vec!["https://a.com", "https://b.com", "https://c.com"]);
    assert_eq!(unique_urls("ba", &vec![(0, 1), (1, 2)]), vec!["a", "b"]);
}

#[test]
fn test_http_url_detected() {
    assert!(is_url_only_message("http://example.com"));
    assert_eq!(
        find_first_url("Visit http://example.com/page").as_deref(),
        Some("http://example.com/page")
    );
    let urls = find_all_urls("http://a.com and http://b.com");
    assert_eq!(urls.len(), 2);
    let segments = parse_url_segments("http://example.com");
    assert_eq!(segments.len(), 1);
    assert!(matches!(&segments[0], TextSegment::Url(u) if u == "http://example.com"));
}

#[test]
fn test_url_with_query_and_fragment() {
    let body = "https://example.com/path?a=1&b=2#section";
    assert!(is_url_only_message(body));
    assert_eq!(
        find_first_url(body).as_deref(),
        Some("https://example.com/path?a=1&b=2#section")
    );
}

#[test]
fn test_url_regex_static_is_initialized() {
    let result = find_urls("https://example.com");
    assert_eq!(result, vec![(0, "https://example.com".len())]);
}

#[test]
fn an_address_runs_to_the_first_character_it_cannot_hold() {
    assert_eq!(find_first_url("see http:// or https:// <here>"), None);
    assert_eq!(find_first_url("ftp://a.com HTTP://a.com"), None);
    assert_eq!(find_first_url("xhttps://a.com/b\u{3000}c").as_deref(), Some("https://a.com/b"));
    for end in ['<', '>', '"', '`', '{', '}', '|', '[', ']', '\\', '^', ' ', '\n', '\u{a0}'] {
        let body = format!("(https://é.com/x,){end}tail http://b.com");
        assert_eq!(find_first_url(&body).as_deref(), Some("https://é.com/x,)"), "{end:?}");
    }
    assert_eq!(find_first_url("http://http://a").as_deref(), Some("http://http://a"));
    assert_eq!(find_first_url("http:// http://a").as_deref(), Some("http://a"));
    assert_eq!(find_urls("é http://é http://b"), vec![(3, 12), (13, 21)]);
}

#[test]
fn the_first_address_is_the_first_segment_that_is_one() {
    for body in ["", "no address", "https://a.com", "é https://a.com/é b http://c", "http://[x"] {
        let mut first = None;
        let mut joined = String::new();
        for segment in parse_url_segments(body) {
            match segment {
                TextSegment::Text(text) => joined.push_str(&text),
                TextSegment::Url(url) => {
                    joined.push_str(&url);
                    first = first.or(Some(url));
                }
            }
        }
        assert_eq!(first, find_first_url(body));
        assert_eq!(joined, body);
    }
}

#[test]
fn only_an_address_from_end_to_end_is_alone() {
    assert!(is_url_only_message("\thttps://a.com/(b)\u{2003}"));
    assert!(!is_url_only_message("https://a.com<"));
    assert!(!is_url_only_message("<https://a.com"));
    assert!(!is_url_only_message("https://"));
}
