use boru::page_meta::{
    choose_description, choose_title, extract_description, extract_html_title,
    extract_meta_name, extract_meta_property, extract_og_image, extract_title, html_unescape,
};

#[test]
fn test_html_unescape_basic() {
    assert_eq!(html_unescape("&amp; &lt; &gt;"), "& < >");
    assert_eq!(html_unescape("&quot;hello&quot;"), "\"hello\"");
    assert_eq!(html_unescape("hello &amp; world"), "hello & world");
}

#[test]
fn text_without_entities_is_left_alone() {
    assert_eq!(html_unescape("plain & simple"), "plain & simple");
    assert_eq!(html_unescape(""), "");
}

#[test]
fn test_extract_title_og() {
    let html = r#"<html><head><meta property="og:title" content="My Title" /></head></html>"#;
    assert_eq!(extract_title(html), Some("My Title".to_string()));
}

#[test]
fn test_extract_title_html() {
    let html = r#"<html><head><title>Page Title</title></head></html>"#;
    assert_eq!(extract_title(html), Some("Page Title".to_string()));
}

#[test]
fn test_extract_description() {
    let html = r#"<meta name="description" content="A great page about things" />"#;
    assert_eq!(
        extract_description(html),
        Some("A great page about things".to_string())
    );
}

#[test]
fn test_extract_og_image() {
    let html = r#"<meta property="og:image" content="https://example.com/image.jpg" />"#;
    assert_eq!(
        extract_og_image(html),
        Some("https://example.com/image.jpg".to_string())
    );
}

#[test]
fn a_page_without_metadata_has_none() {
    assert_eq!(extract_title("<p>hello</p>"), None);
    assert_eq!(extract_description("<p>hello</p>"), None);
    assert_eq!(extract_og_image("<p>hello</p>"), None);
    assert_eq!(extract_html_title("<p>hello</p>"), None);
}

#[test]
fn a_property_is_found_by_its_own_name_only() {
    let html = r#"<meta property="og:title" content="A" /><meta name="keywords" content="B" />"#;
    assert_eq!(extract_meta_property(html, "og:title"), Some("A".to_string()));
    assert_eq!(extract_meta_property(html, "og_title"), None);
    assert_eq!(extract_meta_property(html, "og.title"), None);
    assert_eq!(extract_meta_name(html, "keywords"), Some("B".to_string()));
    assert_eq!(extract_meta_name(html, "og:title"), None);
}

#[test]
fn the_first_title_counts() {
    let og = Some("og".to_string());
    let twitter = Some("twitter".to_string());
    let page = Some("page".to_string());
    assert_eq!(choose_title(og.clone(), twitter.clone(), page.clone()), og);
    assert_eq!(choose_title(None, twitter.clone(), page.clone()), twitter);
    assert_eq!(choose_title(None, None, page.clone()), page);
    assert_eq!(choose_title(None, None, None), None);
}

#[test]
fn descriptions_are_chosen_in_order() {
    let html = r#"<meta name="description" content="plain" /><meta property="og:description" content="open graph" />"#;
    assert_eq!(extract_description(html), Some("open graph".to_string()));
    assert_eq!(
        choose_description(Some(String::new()), Some("b &amp; c".to_string()), None),
        Some("b & c".to_string())
    );
    assert_eq!(choose_description(None, None, Some("t".to_string())), Some("t".to_string()));
    assert_eq!(choose_description(None, None, None), None);
}
