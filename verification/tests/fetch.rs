use boru::preview_data::{LinkPreviewData, LinkPreviewResult};
use boru::preview_fetch::{
    begin, follow_redirect, page_described, take_hop, video_described, BodyBuffer, FetchAction,
    FetchStage, Hop, HopStep, InFlightGuard, InFlightUrls, PreviewFetch, ResponseHead,
    MAX_BODY_BYTES, MAX_CONCURRENT_FETCHES, MAX_IMAGE_BYTES, MAX_OEMBED_BYTES, MAX_REDIRECTS,
};
use boru::preview_target::{
    check_addresses, ipv4_literal, is_blocked_ip, may_redirect, preview_target, read_url,
    refusal_text, same_origin, IpAddress, Refusal, UrlParts,
};

fn parts(url: &str) -> UrlParts {
    read_url(url).expect("a URL")
}

fn public() -> Option<Vec<IpAddress>> {
    Some(vec![IpAddress::V4([1, 1, 1, 1])])
}

fn head(status: u16, location: Option<&str>, content_type: &str) -> Result<ResponseHead, String> {
    Ok(ResponseHead {
        status,
        location: location.map(str::to_string),
        content_type: content_type.to_string(),
    })
}

fn to_page(url: &str) -> PreviewFetch {
    let (fetch, _) = begin(url, &mut InFlightUrls::new());
    let (fetch, _) = fetch.on_resolved(public());
    let (fetch, _) = fetch.on_permit(true);
    let (fetch, _) = fetch.on_resolved(public());
    fetch
}

fn finished(action: FetchAction) -> (LinkPreviewResult, bool) {
    match action {
        FetchAction::Finish { result, release } => (result, release),
        other => panic!("unexpected {other:?}"),
    }
}

fn error_of(action: FetchAction) -> String {
    match finished(action).0 {
        LinkPreviewResult::Error(message) => message,
        other => panic!("unexpected {other:?}"),
    }
}

fn success_of(action: FetchAction) -> LinkPreviewData {
    match finished(action) {
        (LinkPreviewResult::Success(data), true) => data,
        other => panic!("unexpected {other:?}"),
    }
}

#[test]
fn preview_blocks_non_public_ip_ranges() {
    for address in [
        IpAddress::V4([0, 0, 0, 0]),
        IpAddress::V4([10, 0, 0, 1]),
        IpAddress::V4([100, 64, 0, 1]),
        IpAddress::V4([127, 0, 0, 1]),
        IpAddress::V4([169, 254, 169, 254]),
        IpAddress::V4([192, 168, 1, 1]),
        IpAddress::V4([198, 18, 0, 1]),
        IpAddress::V4([224, 0, 0, 1]),
        IpAddress::V6([0, 0, 0, 0, 0, 0, 0, 1]),
        IpAddress::V6([0xfc00, 0, 0, 0, 0, 0, 0, 1]),
        IpAddress::V6([0xfe80, 0, 0, 0, 0, 0, 0, 1]),
        IpAddress::V6([0, 0, 0, 0, 0, 0xffff, 0x7f00, 0x0001]),
    ] {
        assert!(is_blocked_ip(address), "{address:?} must be blocked");
    }
}

#[test]
fn preview_allows_public_ip_ranges() {
    for address in [
        IpAddress::V4([1, 1, 1, 1]),
        IpAddress::V4([8, 8, 8, 8]),
        IpAddress::V6([0x2606, 0x4700, 0x4700, 0, 0, 0, 0, 0x1111]),
    ] {
        assert!(!is_blocked_ip(address), "{address:?} should be allowed");
    }
}

#[test]
fn addresses_that_are_not_routed_are_refused() {
    for address in [
        IpAddress::V4([192, 0, 2, 1]),
        IpAddress::V4([198, 51, 100, 1]),
        IpAddress::V4([203, 0, 113, 1]),
        IpAddress::V6([0x2001, 0xdb8, 0, 0, 0, 0, 0, 1]),
        IpAddress::V6([0x3fff, 0, 0, 0, 0, 0, 0, 1]),
        IpAddress::V6([0x3fff, 0x0fff, 0, 0, 0, 0, 0, 1]),
        IpAddress::V6([0x2001, 2, 0, 0, 0, 0, 0, 1]),
        IpAddress::V6([0x100, 0, 0, 0, 0, 0, 0, 1]),
        IpAddress::V6([0x64, 0xff9b, 1, 0, 0, 0, 0, 1]),
        IpAddress::V6([0x5f00, 0, 0, 0, 0, 0, 0, 1]),
        IpAddress::V6([0xfec0, 0, 0, 0, 0, 0, 0, 1]),
    ] {
        assert!(is_blocked_ip(address), "{address:?} must be blocked");
    }
    for address in [
        IpAddress::V6([0x3fff, 0x1000, 0, 0, 0, 0, 0, 1]),
        IpAddress::V6([0x100, 1, 0, 0, 0, 0, 0, 1]),
        IpAddress::V6([0x64, 0xff9b, 0, 0, 0, 0, 0x0808, 0x0808]),
        IpAddress::V6([0x2001, 0x4860, 0, 0, 0, 0, 0, 1]),
    ] {
        assert!(!is_blocked_ip(address), "{address:?} should be allowed");
    }
}

#[test]
fn a_mapped_address_is_judged_as_what_it_maps() {
    assert!(!is_blocked_ip(IpAddress::V6([0, 0, 0, 0, 0, 0xffff, 0x0808, 0x0808])));
    assert!(is_blocked_ip(IpAddress::V6([0, 0, 0, 0, 0, 0xffff, 0x0a00, 0x0001])));
}

#[test]
fn preview_validation_returns_the_addresses_to_pin() {
    let url = parts("https://1.1.1.1/example");
    let (host, port) = preview_target(&url).unwrap();
    assert_eq!((host.as_str(), port), ("1.1.1.1", 443));
    let address = ipv4_literal(&host).unwrap();
    let addresses = check_addresses(Some(vec![address])).unwrap();
    assert_eq!(addresses, vec![IpAddress::V4([1, 1, 1, 1])]);
}

#[test]
fn preview_validation_rejects_private_dns_results() {
    let url = parts("http://localhost/");
    let (host, port) = preview_target(&url).unwrap();
    assert_eq!((host.as_str(), port), ("localhost", 80));
    let error = check_addresses(Some(vec![IpAddress::V4([127, 0, 0, 1])])).unwrap_err();
    assert!(refusal_text(error).contains("private or reserved"));
}

#[test]
fn one_private_address_refuses_them_all() {
    let mixed = Some(vec![IpAddress::V4([1, 1, 1, 1]), IpAddress::V4([10, 0, 0, 1])]);
    assert_eq!(check_addresses(mixed).unwrap_err(), Refusal::PrivateAddress);
    assert_eq!(check_addresses(Some(vec![])).unwrap_err(), Refusal::PrivateAddress);
    assert_eq!(check_addresses(None).unwrap_err(), Refusal::Unresolved);
}

#[test]
fn refused_targets_say_why() {
    assert_eq!(preview_target(&parts("ftp://example.com/")).unwrap_err(), Refusal::Scheme);
    assert_eq!(
        preview_target(&parts("https://user@example.com/")).unwrap_err(),
        Refusal::Credentials
    );
    assert_eq!(
        preview_target(&parts("https://:secret@example.com/")).unwrap_err(),
        Refusal::Credentials
    );
    let hostless = UrlParts { host: None, ..parts("https://example.com/") };
    assert_eq!(preview_target(&hostless).unwrap_err(), Refusal::NoHost);
    let portless = UrlParts { port: None, ..parts("https://example.com/") };
    assert_eq!(preview_target(&portless).unwrap_err(), Refusal::NoPort);
    assert_eq!(refusal_text(Refusal::Scheme), "only HTTP(S) preview URLs are allowed");
    assert_eq!(
        refusal_text(Refusal::Credentials),
        "preview URLs with credentials are not allowed"
    );
    assert_eq!(refusal_text(Refusal::NoHost), "preview URL has no host");
    assert_eq!(refusal_text(Refusal::NoPort), "preview URL has no valid port");
    assert_eq!(refusal_text(Refusal::Unresolved), "preview hostname could not be resolved");
}

#[test]
fn preview_image_must_be_same_origin() {
    let page = parts("https://example.com/article");
    assert!(same_origin(&page, &parts("https://example.com/image.png")));
    assert!(!same_origin(&page, &parts("https://cdn.example.net/image.png")));
    assert!(!same_origin(&page, &parts("http://example.com/image.png")));
}

#[test]
fn redirects_stay_on_the_host() {
    let page = parts("https://example.com/a");
    assert!(may_redirect(&page, &parts("https://example.com/b")));
    assert!(!may_redirect(&page, &parts("https://other.com/b")));
    assert!(!may_redirect(&page, &parts("http://example.com:443/b")));
}

#[test]
fn a_url_is_read_in_its_normal_form() {
    let url = parts("HTTPS://Example.COM/a/../b");
    assert_eq!(url.href, "https://example.com/b");
    assert_eq!(url.scheme, "https");
    assert_eq!(url.host.as_deref(), Some("example.com"));
    assert_eq!(url.port, Some(443));
    assert!(read_url("not a url").is_none());
}

#[test]
fn test_stream_body_with_limit() {
    assert_eq!(MAX_BODY_BYTES, 262_144);
}

#[test]
fn a_body_is_cut_at_its_limit() {
    let mut buffer = BodyBuffer::new(5);
    assert!(buffer.push_chunk(&[1, 2, 3]));
    assert!(!buffer.push_chunk(&[4, 5, 6, 7]));
    assert!(!buffer.push_chunk(&[8]));
    assert_eq!(buffer.into_bytes(), vec![1, 2, 3, 4, 5]);
    let mut whole = BodyBuffer::new(5);
    whole.push_chunk(&[1, 2, 3, 4, 5, 6, 7, 8]);
    assert_eq!(whole.into_bytes(), vec![1, 2, 3, 4, 5]);
}

#[test]
fn test_semaphore_max_permits() {
    let permits = tokio::sync::Semaphore::new(MAX_CONCURRENT_FETCHES);
    assert_eq!(permits.available_permits(), MAX_CONCURRENT_FETCHES);
}

#[test]
fn test_concurrent_fetch_limit() {
    assert!(MAX_CONCURRENT_FETCHES > 0);
    assert!(MAX_CONCURRENT_FETCHES <= 64);
}

#[test]
fn test_in_flight_guard_unregisters() {
    let mut register = InFlightUrls::new();
    assert!(register.register("https://test-guard.example.com"));
    assert!(register.contains("https://test-guard.example.com"));
    let guard = InFlightGuard::new("https://test-guard.example.com");
    guard.release(&mut register);
    assert!(!register.contains("https://test-guard.example.com"));
}

#[test]
fn test_in_flight_guard_disarm() {
    let mut register = InFlightUrls::new();
    assert!(register.register("https://test-disarm.example.com"));
    let guard = InFlightGuard::new("https://test-disarm.example.com");
    guard.disarm().release(&mut register);
    assert!(register.contains("https://test-disarm.example.com"));
    register.unregister("https://test-disarm.example.com");
    assert!(!register.contains("https://test-disarm.example.com"));
}

#[test]
fn a_url_is_registered_once() {
    let mut register = InFlightUrls::new();
    assert!(register.register("https://a.com"));
    assert!(!register.register("https://a.com"));
    assert!(register.register("https://b.com"));
    register.unregister("https://a.com");
    assert!(register.contains("https://b.com"));
    assert!(register.register("https://a.com"));
}

#[test]
fn a_fetch_refuses_what_it_may_not_contact() {
    let mut register = InFlightUrls::new();
    let long = format!("https://example.com/{}", "a".repeat(2048));
    let (_, action) = begin(&long, &mut register);
    assert_eq!(error_of(action), "URL too long");
    assert!(!register.contains(&long));
    let (_, action) = begin("nonsense", &mut register);
    assert_eq!(error_of(action), "invalid preview URL");
    let (_, action) = begin("ftp://example.com/", &mut register);
    let (result, release) = finished(action);
    assert!(!release && !register.contains("ftp://example.com/"));
    assert!(matches!(
        result,
        LinkPreviewResult::Error(m) if m == "only HTTP(S) preview URLs are allowed"
    ));
    let (fetch, action) = begin("http://example.com/", &mut register);
    assert!(register.contains("http://example.com/"));
    assert!(matches!(action, FetchAction::Resolve { host, port } if host == "example.com" && port == 80));
    let (_, action) = fetch.on_resolved(Some(vec![IpAddress::V4([192, 168, 0, 1])]));
    let (result, release) = finished(action);
    assert!(release);
    assert!(matches!(result, LinkPreviewResult::Error(m) if m.contains("private or reserved")));
}

#[test]
fn a_duplicate_fetch_is_pending() {
    let mut register = InFlightUrls::new();
    let (_, first) = begin("https://example.com/", &mut register);
    assert!(matches!(first, FetchAction::Resolve { .. }));
    let (fetch, action) = begin("https://example.com/", &mut register);
    assert!(matches!(fetch.stage, FetchStage::Finished));
    let (result, release) = finished(action);
    assert!(matches!(result, LinkPreviewResult::Pending));
    assert!(!release);
    assert!(register.contains("https://example.com/"));
    InFlightGuard::new("https://example.com/").release(&mut register);
    let (_, again) = begin("https://example.com/", &mut register);
    assert!(matches!(again, FetchAction::Resolve { .. }));
}

#[test]
fn an_address_is_not_looked_up() {
    let mut register = InFlightUrls::new();
    let (fetch, action) = begin("https://1.1.1.1/example", &mut register);
    assert!(matches!(action, FetchAction::AcquirePermit));
    let (fetch, action) = fetch.on_permit(true);
    match action {
        FetchAction::Get { url, host, port, addresses, .. } => {
            assert_eq!(url, "https://1.1.1.1/example");
            assert_eq!((host.as_str(), port), ("1.1.1.1", 443));
            assert_eq!(addresses, vec![IpAddress::V4([1, 1, 1, 1])]);
        }
        other => panic!("unexpected {other:?}"),
    }
    let (_, action) = fetch.on_response(head(302, Some("/b"), ""));
    assert!(matches!(
        &action,
        FetchAction::Get { url, addresses, .. }
            if url == "https://1.1.1.1/b" && addresses == &vec![IpAddress::V4([1, 1, 1, 1])]
    ));
    let (_, action) = begin("http://127.0.0.1/", &mut register);
    let (result, release) = finished(action);
    assert!(release);
    assert!(matches!(result, LinkPreviewResult::Error(m) if m.contains("private or reserved")));
}

#[test]
fn four_numbers_are_an_address() {
    assert_eq!(ipv4_literal("1.1.1.1"), Some(IpAddress::V4([1, 1, 1, 1])));
    assert_eq!(ipv4_literal("255.0.10.199"), Some(IpAddress::V4([255, 0, 10, 199])));
    for host in [
        "", "1.1.1", "1.1.1.1.", ".1.1.1", "1..1.1", "256.1.1.1", "1.1.1.999", "01.1.1.1",
        "1.1.1.00", "+1.1.1.1", "1.1.1.1.1", " 1.1.1.1", "1.1.1.a", "example.com", "[::1]",
    ] {
        assert_eq!(ipv4_literal(host), None, "{host:?}");
    }
}

#[test]
fn a_page_is_fetched_and_described() {
    let (fetch, _) = begin("https://example.com/a", &mut InFlightUrls::new());
    let (fetch, action) = fetch.on_resolved(public());
    assert!(matches!(action, FetchAction::AcquirePermit));
    let (fetch, action) = fetch.on_permit(true);
    assert!(matches!(action, FetchAction::Resolve { .. }));
    let (fetch, action) = fetch.on_resolved(public());
    match action {
        FetchAction::Get { url, host, port, addresses, privacy_headers } => {
            assert_eq!(url, "https://example.com/a");
            assert_eq!(host, "example.com");
            assert_eq!(port, 443);
            assert_eq!(addresses, vec![IpAddress::V4([1, 1, 1, 1])]);
            assert!(privacy_headers);
        }
        other => panic!("unexpected {other:?}"),
    }
    let (fetch, action) = fetch.on_response(head(200, None, "text/html; charset=utf-8"));
    assert!(matches!(action, FetchAction::ReadBody { limit } if limit == MAX_BODY_BYTES));
    let html = b"<title>T</title><meta property=\"og:image\" content=\"https://example.com/i.png\" />";
    let (fetch, action) = fetch.on_body(Ok(html.to_vec()));
    assert!(matches!(action, FetchAction::Resolve { host, .. } if host == "example.com"));
    let (fetch, _) = fetch.on_resolved(public());
    let (fetch, action) = fetch.on_response(head(200, None, "image/png"));
    assert!(matches!(action, FetchAction::ReadBody { limit } if limit == MAX_IMAGE_BYTES));
    let (_, action) = fetch.on_body(Ok(vec![0xff, 0xd8]));
    let data = success_of(action);
    assert_eq!(data.url, "https://example.com/a");
    assert_eq!(data.title.as_deref(), Some("T"));
    assert_eq!(data.image_url.as_deref(), Some("https://example.com/i.png"));
    assert_eq!(data.image_bytes, Some(vec![0xff, 0xd8]));
}

#[test]
fn a_picture_from_elsewhere_is_not_fetched() {
    let fetch = to_page("https://example.com/a");
    let (fetch, _) = fetch.on_response(head(200, None, "text/html"));
    let html = b"<meta property=\"og:image\" content=\"https://cdn.example.net/i.png\" />";
    let (_, action) = fetch.on_body(Ok(html.to_vec()));
    let data = success_of(action);
    assert_eq!(data.image_url.as_deref(), Some("https://cdn.example.net/i.png"));
    assert!(data.image_bytes.is_none());
}

#[test]
fn a_page_that_cannot_be_used_fails() {
    let fetch = to_page("https://example.com/a");
    let (_, action) = fetch.on_response(head(200, None, "application/pdf"));
    assert_eq!(error_of(action), "not HTML (application/pdf)");
    let fetch = to_page("https://example.com/a");
    let (_, action) = fetch.on_response(Err("connection refused".to_string()));
    assert_eq!(error_of(action), "connection refused");
    let fetch = to_page("https://example.com/a");
    let (fetch, _) = fetch.on_response(head(200, None, "text/html"));
    let (_, action) = fetch.on_body(Ok(vec![0xff]));
    assert_eq!(error_of(action), "body is not valid UTF-8");
    let (fetch, _) = begin("https://example.com/a", &mut InFlightUrls::new());
    let (fetch, _) = fetch.on_resolved(public());
    let (_, action) = fetch.on_permit(false);
    assert_eq!(error_of(action), "semaphore closed");
}

#[test]
fn a_redirect_is_resolved_and_checked_again() {
    let fetch = to_page("https://example.com/a");
    let (fetch, action) = fetch.on_response(head(302, Some("/b"), ""));
    assert!(matches!(action, FetchAction::Resolve { host, .. } if host == "example.com"));
    let (fetch, action) = fetch.on_resolved(public());
    assert!(matches!(&action, FetchAction::Get { url, .. } if url == "https://example.com/b"));
    let (_, action) = fetch.on_response(head(302, Some("https://other.com/"), ""));
    assert_eq!(error_of(action), "cross-origin preview redirect blocked");
    let fetch = to_page("https://example.com/a");
    let (_, action) = fetch.on_response(head(302, None, ""));
    assert_eq!(error_of(action), "redirect has no valid location");
}

#[test]
fn redirects_are_counted() {
    let hop = Hop {
        current: parts("https://example.com/a"),
        host: "example.com".to_string(),
        port: 443,
        followed: MAX_REDIRECTS,
    };
    assert!(matches!(take_hop(&hop, 200, &None), HopStep::Arrived));
    assert!(matches!(
        take_hop(&hop, 301, &Some("/b".to_string())),
        HopStep::Failed(m) if m == "too many redirects"
    ));
    assert!(matches!(
        follow_redirect(&hop, None),
        HopStep::Failed(m) if m == "redirect location is invalid"
    ));
    let fresh = Hop { followed: 0, ..hop };
    match follow_redirect(&fresh, Some(parts("https://example.com/b"))) {
        HopStep::Follow(next) => {
            assert_eq!(next.followed, 1);
            assert_eq!(next.current.href, "https://example.com/b");
        }
        other => panic!("unexpected {other:?}"),
    }
}

#[test]
fn a_video_is_described_by_its_site() {
    let (fetch, _) = begin("https://youtu.be/dQw4w9WgXcQ", &mut InFlightUrls::new());
    let (fetch, _) = fetch.on_resolved(public());
    let (fetch, action) = fetch.on_permit(true);
    assert!(matches!(action, FetchAction::Resolve { host, .. } if host == "www.youtube.com"));
    let (fetch, action) = fetch.on_resolved(public());
    match action {
        FetchAction::Get { url, privacy_headers, .. } => {
            assert!(url.contains("oembed"));
            assert!(url.contains("dQw4w9WgXcQ"));
            assert!(!privacy_headers);
        }
        other => panic!("unexpected {other:?}"),
    }
    let (fetch, action) = fetch.on_response(head(200, None, "application/json"));
    assert!(matches!(action, FetchAction::ReadBody { limit } if limit == MAX_OEMBED_BYTES));
    let (_, action) = fetch.on_body(Ok(b"{\"title\": \"Song\"}".to_vec()));
    let data = success_of(action);
    assert_eq!(data.title.as_deref(), Some("Song"));
    assert!(data.image_url.is_none());
}

#[test]
fn a_video_without_a_description_is_a_page() {
    let (fetch, _) = begin("https://youtu.be/dQw4w9WgXcQ", &mut InFlightUrls::new());
    let (fetch, _) = fetch.on_resolved(public());
    let (fetch, _) = fetch.on_permit(true);
    let (fetch, _) = fetch.on_resolved(public());
    let (fetch, _) = fetch.on_response(head(200, None, "application/json"));
    let (_, action) = fetch.on_body(Ok(b"not json".to_vec()));
    assert!(matches!(action, FetchAction::Resolve { host, .. } if host == "youtu.be"));
}

#[test]
fn a_thumbnail_is_fetched_in_its_best_quality() {
    let (fetch, action) = video_described(
        "https://youtu.be/dQw4w9WgXcQ".to_string(),
        Some("Song".to_string()),
        Some("https://i.ytimg.com/vi/x/hqdefault.jpg".to_string()),
    );
    assert!(matches!(action, FetchAction::Resolve { host, .. } if host == "i.ytimg.com"));
    match fetch.stage {
        FetchStage::ImageResolving(data, hop) => {
            assert_eq!(hop.current.href, "https://i.ytimg.com/vi/x/maxresdefault.jpg");
            assert_eq!(
                data.image_url.as_deref(),
                Some("https://i.ytimg.com/vi/x/hqdefault.jpg")
            );
        }
        other => panic!("unexpected {other:?}"),
    }
}

#[test]
fn a_page_without_a_picture_is_done() {
    let data = LinkPreviewData {
        url: "https://example.com/".to_string(),
        title: None,
        description: None,
        image_url: None,
        image_bytes: None,
    };
    let (_, action) = page_described(
        "https://example.com/".to_string(),
        parts("https://example.com/"),
        data,
        None,
    );
    assert_eq!(success_of(action).url, "https://example.com/");
}
