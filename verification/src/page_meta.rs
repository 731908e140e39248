//! What an HTML page says of itself in its `<title>` and `<meta>` tags.

use vstd::prelude::*;
use vstd::string::*;

use crate::matching;
use crate::text;

verus! {

/// Matches a page's title tag; the first group is the title.
pub const TITLE_PATTERN: &'static str = "<title[^>]*>([^<]+)</title>";

/// Matches the tag that names a page's picture; the first group is its address.
pub const IMAGE_PATTERN: &'static str =
    "<meta[^>]+(?:property\\s*=\\s*[\"']og:image[\"']|name\\s*=\\s*[\"']twitter:image[\"'])[^>]*content\\s*=\\s*[\"']([^\"']+)[\"']";

/// What stands in a tag's pattern before the property that it is about.
pub const PROPERTY_HEAD: &'static str = "<meta[^>]+property\\s*=\\s*[\"']";

/// What stands in a tag's pattern before the name that it is about.
pub const NAME_HEAD: &'static str = "<meta[^>]+name\\s*=\\s*[\"']";

/// What stands in a tag's pattern after the property or name; the first group is the content.
pub const CONTENT_TAIL: &'static str = "[\"'][^>]*content\\s*=\\s*[\"']([^\"']+)[\"']";

/// `s` with the common HTML entities turned into the characters they stand for, one entity
/// after the other.
pub open spec fn unescaped(s: Seq<char>) -> Seq<char> {
    let s = text::replaced(s, "&amp;"@, "&"@);
    let s = text::replaced(s, "&lt;"@, "<"@);
    let s = text::replaced(s, "&gt;"@, ">"@);
    let s = text::replaced(s, "&quot;"@, "\""@);
    let s = text::replaced(s, "&#39;"@, "'"@);
    let s = text::replaced(s, "&#x27;"@, "'"@);
    let s = text::replaced(s, "&#x2F;"@, "/"@);
    let s = text::replaced(s, "&#x2f;"@, "/"@);
    text::replaced(s, "&nbsp;"@, " "@)
}

/// Turns the common HTML entities into the characters they stand for.
pub fn html_unescape(s: &str) -> (out: String)
    ensures
        out@ == unescaped(s@),
{
    proof {
        reveal_strlit("&amp;");
        reveal_strlit("&lt;");
        reveal_strlit("&gt;");
        reveal_strlit("&quot;");
        reveal_strlit("&#39;");
        reveal_strlit("&#x27;");
        reveal_strlit("&#x2F;");
        reveal_strlit("&#x2f;");
        reveal_strlit("&nbsp;");
    }
    let s = text::replace(s, "&amp;", "&");
    let s = text::replace(s.as_str(), "&lt;", "<");
    let s = text::replace(s.as_str(), "&gt;", ">");
    let s = text::replace(s.as_str(), "&quot;", "\"");
    let s = text::replace(s.as_str(), "&#39;", "'");
    let s = text::replace(s.as_str(), "&#x27;", "'");
    let s = text::replace(s.as_str(), "&#x2F;", "/");
    let s = text::replace(s.as_str(), "&#x2f;", "/");
    text::replace(s.as_str(), "&nbsp;", " ")
}

proof fn lemma_replaced_without(s: Seq<char>, from: Seq<char>, to: Seq<char>)
    requires
        from.len() > 0,
        from[0] == '&',
        !s.contains('&'),
    ensures
        text::replaced(s, from, to) == s,
    decreases s.len(),
{
    if s.len() >= from.len() {
        if text::has_prefix(s, from) {
            assert(s.subrange(0, from.len() as int)[0] == s[0]);
            assert(s.contains(s[0]));
        }
        assert(!s.drop_first().contains('&')) by {
            if s.drop_first().contains('&') {
                let i = choose|i: int| 0 <= i < s.drop_first().len() && s.drop_first()[i] == '&';
                assert(s[i + 1] == '&');
            }
        }
        lemma_replaced_without(s.drop_first(), from, to);
        assert(seq![s[0]] + s.drop_first() =~= s);
    }
}

/// Text without an ampersand holds no entity, and is left as it is.
pub proof fn plain_text_is_unescaped(s: Seq<char>)
    requires
        !s.contains('&'),
    ensures
        unescaped(s) == s,
{
    reveal_strlit("&amp;");
    reveal_strlit("&lt;");
    reveal_strlit("&gt;");
    reveal_strlit("&quot;");
    reveal_strlit("&#39;");
    reveal_strlit("&#x27;");
    reveal_strlit("&#x2F;");
    reveal_strlit("&#x2f;");
    reveal_strlit("&nbsp;");
    lemma_replaced_without(s, "&amp;"@, "&"@);
    lemma_replaced_without(s, "&lt;"@, "<"@);
    lemma_replaced_without(s, "&gt;"@, ">"@);
    lemma_replaced_without(s, "&quot;"@, "\""@);
    lemma_replaced_without(s, "&#39;"@, "'"@);
    lemma_replaced_without(s, "&#x27;"@, "'"@);
    lemma_replaced_without(s, "&#x2F;"@, "/"@);
    lemma_replaced_without(s, "&#x2f;"@, "/"@);
    lemma_replaced_without(s, "&nbsp;"@, " "@);
}

/// The pattern of the tag about `key` that starts with `head`.
pub open spec fn tag_pattern(head: Seq<char>, key: Seq<char>) -> Seq<char> {
    head + matching::regex_escaped(key) + CONTENT_TAIL@
}

/// What the first `<meta property="..">` tag about `property` holds.
pub open spec fn meta_property(html: Seq<char>, property: Seq<char>) -> Option<Seq<char>> {
    matching::regex_group_one(tag_pattern(PROPERTY_HEAD@, property), html)
}

/// What the first `<meta name="..">` tag about `name` holds.
pub open spec fn meta_name(html: Seq<char>, name: Seq<char>) -> Option<Seq<char>> {
    matching::regex_group_one(tag_pattern(NAME_HEAD@, name), html)
}

/// The pattern of the tag about `key` that starts with `head`.
fn build_tag_pattern(head: &str, key: &str) -> (pattern: String)
    ensures
        pattern@ == tag_pattern(head@, key@),
{
    let escaped = regex::escape(key);
    let mut pattern = head.to_owned();
    pattern.append(escaped.as_str());
    pattern.append(CONTENT_TAIL);
    pattern
}

/// The content of a `<meta property="..">` tag.
pub fn extract_meta_property(html: &str, property: &str) -> (content: Option<String>)
    ensures
        text::opt_text(content) == meta_property(html@, property@),
{
    let pattern = build_tag_pattern(PROPERTY_HEAD, property);
    matching::capture_one(pattern.as_str(), html)
}

/// The content of a `<meta name="..">` tag.
pub fn extract_meta_name(html: &str, name: &str) -> (content: Option<String>)
    ensures
        text::opt_text(content) == meta_name(html@, name@),
{
    let pattern = build_tag_pattern(NAME_HEAD, name);
    matching::capture_one(pattern.as_str(), html)
}

/// `title` without the white space around it.
pub open spec fn trimmed_title(title: Option<Seq<char>>) -> Option<Seq<char>> {
    match title {
        Some(t) => Some(text::trimmed(t)),
        None => None,
    }
}

/// The text between the title tags, without the white space around it.
pub fn extract_html_title(html: &str) -> (title: Option<String>)
    ensures
        text::opt_text(title) == trimmed_title(
            matching::regex_group_one(TITLE_PATTERN@, html@),
        ),
{
    match matching::capture_one(TITLE_PATTERN, html) {
        Some(title) => Some(text::trim(title.as_str())),
        None => None,
    }
}

/// The address of the page's picture.
pub fn extract_og_image(html: &str) -> (image: Option<String>)
    ensures
        text::opt_text(image) == matching::regex_group_one(IMAGE_PATTERN@, html@),
{
    matching::capture_one(IMAGE_PATTERN, html)
}

/// The candidate is there and not empty.
pub open spec fn is_usable(candidate: Option<Seq<char>>) -> bool {
    candidate is Some && candidate->0.len() > 0
}

/// The candidate, if it is usable, with its entities resolved; else the fallback.
pub open spec fn preferred(
    candidate: Option<Seq<char>>,
    fallback: Option<Seq<char>>,
) -> Option<Seq<char>> {
    if is_usable(candidate) {
        Some(unescaped(candidate->0))
    } else {
        fallback
    }
}

/// The title: of the page's cards if either gives one, else that of the page itself.
pub open spec fn title_of(
    og: Option<Seq<char>>,
    twitter: Option<Seq<char>>,
    page: Option<Seq<char>>,
) -> Option<Seq<char>> {
    preferred(
        og,
        preferred(
            twitter,
            match page {
                Some(t) => Some(unescaped(t)),
                None => None,
            },
        ),
    )
}

/// The description: the first of the three candidates that is there and not empty.
pub open spec fn description_of(
    og: Option<Seq<char>>,
    plain: Option<Seq<char>>,
    twitter: Option<Seq<char>>,
) -> Option<Seq<char>> {
    preferred(og, preferred(plain, preferred(twitter, None)))
}

/// Chooses the page's title from what its tags hold.
pub fn choose_title(og: Option<String>, twitter: Option<String>, page: Option<String>) -> (title:
    Option<String>)
    ensures
        text::opt_text(title) == title_of(
            text::opt_text(og),
            text::opt_text(twitter),
            text::opt_text(page),
        ),
{
    if let Some(t) = og {
        if !t.as_str().is_empty() {
            return Some(html_unescape(t.as_str()));
        }
    }
    if let Some(t) = twitter {
        if !t.as_str().is_empty() {
            return Some(html_unescape(t.as_str()));
        }
    }
    match page {
        Some(t) => Some(html_unescape(t.as_str())),
        None => None,
    }
}

/// Chooses the page's description from what its tags hold.
pub fn choose_description(
    og: Option<String>,
    plain: Option<String>,
    twitter: Option<String>,
) -> (description: Option<String>)
    ensures
        text::opt_text(description) == description_of(
            text::opt_text(og),
            text::opt_text(plain),
            text::opt_text(twitter),
        ),
{
    if let Some(d) = og {
        if !d.as_str().is_empty() {
            return Some(html_unescape(d.as_str()));
        }
    }
    if let Some(d) = plain {
        if !d.as_str().is_empty() {
            return Some(html_unescape(d.as_str()));
        }
    }
    if let Some(d) = twitter {
        if !d.as_str().is_empty() {
            return Some(html_unescape(d.as_str()));
        }
    }
    None
}

/// The title that the page `html` gives.
pub open spec fn page_title(html: Seq<char>) -> Option<Seq<char>> {
    title_of(
        meta_property(html, "og:title"@),
        meta_name(html, "twitter:title"@),
        trimmed_title(matching::regex_group_one(TITLE_PATTERN@, html)),
    )
}

/// The description that the page `html` gives.
pub open spec fn page_description(html: Seq<char>) -> Option<Seq<char>> {
    description_of(
        meta_property(html, "og:description"@),
        meta_name(html, "description"@),
        meta_name(html, "twitter:description"@),
    )
}

/// The page's title, from its card tags or its title tag.
pub fn extract_title(html: &str) -> (title: Option<String>)
    ensures
        text::opt_text(title) == page_title(html@),
{
    let og = extract_meta_property(html, "og:title");
    let twitter = extract_meta_name(html, "twitter:title");
    let page = extract_html_title(html);
    choose_title(og, twitter, page)
}

/// The page's description, from its tags.
pub fn extract_description(html: &str) -> (description: Option<String>)
    ensures
        text::opt_text(description) == page_description(html@),
{
    let og = extract_meta_property(html, "og:description");
    let plain = extract_meta_name(html, "description");
    let twitter = extract_meta_name(html, "twitter:description");
    choose_description(og, plain, twitter)
}

/// Where the entity `e` stands in a text without other ampersands, an entity that differs from
/// it is not found.
proof fn lemma_other_entity(
    before: Seq<char>,
    e: Seq<char>,
    after: Seq<char>,
    from: Seq<char>,
    to: Seq<char>,
    k: int,
)
    requires
        !before.contains('&'),
        !e.drop_first().contains('&'),
        !after.contains('&'),
        0 <= k < e.len(),
        k < from.len(),
        e[k] != from[k],
        from[0] == '&',
    ensures
        text::replaced(before + e + after, from, to) == before + e + after,
    decreases before.len(),
{
    let s = before + e + after;
    if before.len() > 0 {
        assert(s.drop_first() =~= before.drop_first() + e + after);
        lemma_tail_without(before);
        lemma_other_entity(before.drop_first(), e, after, from, to, k);
        assert(before.contains(before[0]));
        if text::has_prefix(s, from) {
            assert(s.subrange(0, from.len() as int)[0] == s[0]);
        }
        assert(seq![s[0]] + s.drop_first() =~= s);
    } else {
        assert(s =~= e + after);
        if text::has_prefix(s, from) {
            assert(s.subrange(0, from.len() as int)[k] == s[k]);
        }
        assert(s.drop_first() =~= e.drop_first() + after);
        assert(!s.drop_first().contains('&')) by {
            lemma_both_without(e.drop_first(), after);
        }
        lemma_replaced_without(s.drop_first(), from, to);
        assert(seq![s[0]] + s.drop_first() =~= s);
    }
}

/// Where the entity `e` stands in a text without other ampersands, it is replaced.
proof fn lemma_this_entity(before: Seq<char>, e: Seq<char>, after: Seq<char>, to: Seq<char>)
    requires
        !before.contains('&'),
        !after.contains('&'),
        e.len() > 0,
        e[0] == '&',
    ensures
        text::replaced(before + e + after, e, to) == before + to + after,
    decreases before.len(),
{
    let s = before + e + after;
    if before.len() > 0 {
        assert(s.drop_first() =~= before.drop_first() + e + after);
        lemma_tail_without(before);
        lemma_this_entity(before.drop_first(), e, after, to);
        assert(before.contains(before[0]));
        if text::has_prefix(s, e) {
            assert(s.subrange(0, e.len() as int)[0] == s[0]);
        }
        assert(seq![s[0]] + (before.drop_first() + to + after) =~= before + to + after);
    } else {
        assert(s.subrange(0, e.len() as int) =~= e);
        assert(s.skip(e.len() as int) =~= after);
        lemma_replaced_without(after, e, to);
        assert(to + after =~= before + to + after);
    }
}

proof fn lemma_tail_without(s: Seq<char>)
    requires
        s.len() > 0,
        !s.contains('&'),
    ensures
        !s.drop_first().contains('&'),
{
    if s.drop_first().contains('&') {
        let i = choose|i: int| 0 <= i < s.drop_first().len() && s.drop_first()[i] == '&';
        assert(s[i + 1] == '&');
    }
}

proof fn lemma_both_without(a: Seq<char>, b: Seq<char>)
    requires
        !a.contains('&'),
        !b.contains('&'),
    ensures
        !(a + b).contains('&'),
{
    if (a + b).contains('&') {
        let i = choose|i: int| 0 <= i < (a + b).len() && (a + b)[i] == '&';
        if i < a.len() {
            assert(a[i] == '&');
        } else {
            assert(b[i - a.len()] == '&');
        }
    }
}

/// A lone ampersand in a text without semicolons starts no entity.
proof fn lemma_lone_ampersand(before: Seq<char>, after: Seq<char>, from: Seq<char>, to: Seq<char>)
    requires
        !before.contains('&'),
        !after.contains('&'),
        !after.contains(';'),
        from.len() > 1,
        from[0] == '&',
        from.last() == ';',
    ensures
        text::replaced(before + seq!['&'] + after, from, to) == before + seq!['&'] + after,
    decreases before.len(),
{
    let s = before + seq!['&'] + after;
    if before.len() > 0 {
        assert(s.drop_first() =~= before.drop_first() + seq!['&'] + after);
        lemma_tail_without(before);
        lemma_lone_ampersand(before.drop_first(), after, from, to);
        assert(before.contains(before[0]));
        if text::has_prefix(s, from) {
            assert(s.subrange(0, from.len() as int)[0] == s[0]);
        }
        assert(seq![s[0]] + s.drop_first() =~= s);
    } else {
        if text::has_prefix(s, from) {
            let n = from.len() as int;
            assert(s.subrange(0, n)[n - 1] == s[n - 1]);
            assert(s[n - 1] == after[n - 2]);
            assert(after.contains(';'));
        }
        assert(s.drop_first() =~= after);
        lemma_replaced_without(after, from, to);
        assert(seq![s[0]] + s.drop_first() =~= s);
    }
}

proof fn lemma_entity_lt(before: Seq<char>, after: Seq<char>)
    requires
        !before.contains('&'),
        !after.contains('&'),
    ensures
        unescaped(before + "&lt;"@ + after) == before + seq!['\u{3c}'] + after,
        unescaped(before + "&amp;"@ + "&lt;"@.drop_first() + after) == before + seq!['\u{3c}'] + after,
{
    reveal_strlit("&amp;");
    reveal_strlit("&lt;");
    reveal_strlit("&gt;");
    reveal_strlit("&quot;");
    reveal_strlit("&#39;");
    reveal_strlit("&#x27;");
    reveal_strlit("&#x2F;");
    reveal_strlit("&#x2f;");
    reveal_strlit("&nbsp;");
    reveal_strlit("&");
    reveal_strlit("<");
    reveal_strlit(">");
    reveal_strlit("\"");
    reveal_strlit("'");
    reveal_strlit("/");
    reveal_strlit(" ");
    let e = "&lt;"@;
    let c = seq!['\u{3c}'];
    assert("<"@ =~= c);
    assert(!e.drop_first().contains('&'));
    let s = before + e + after;
    lemma_other_entity(before, e, after, "&amp;"@, "&"@, 1);
    let tail = e.drop_first() + after;
    lemma_both_without(e.drop_first(), after);
    lemma_this_entity(before, "&amp;"@, tail, "&"@);
    assert(before + "&amp;"@ + e.drop_first() + after =~= before + "&amp;"@ + tail);
    assert(before + "&"@ + tail =~= s);
    lemma_this_entity(before, e, after, "<"@);
    let done = before + c + after;
    lemma_both_without(before, c);
    lemma_both_without(before + c, after);
    lemma_replaced_without(done, "&gt;"@, ">"@);
    lemma_replaced_without(done, "&quot;"@, "\""@);
    lemma_replaced_without(done, "&#39;"@, "'"@);
    lemma_replaced_without(done, "&#x27;"@, "'"@);
    lemma_replaced_without(done, "&#x2F;"@, "/"@);
    lemma_replaced_without(done, "&#x2f;"@, "/"@);
    lemma_replaced_without(done, "&nbsp;"@, " "@);
}

proof fn lemma_entity_gt(before: Seq<char>, after: Seq<char>)
    requires
        !before.contains('&'),
        !after.contains('&'),
    ensures
        unescaped(before + "&gt;"@ + after) == before + seq!['\u{3e}'] + after,
        unescaped(before + "&amp;"@ + "&gt;"@.drop_first() + after) == before + seq!['\u{3e}'] + after,
{
    reveal_strlit("&amp;");
    reveal_strlit("&lt;");
    reveal_strlit("&gt;");
    reveal_strlit("&quot;");
    reveal_strlit("&#39;");
    reveal_strlit("&#x27;");
    reveal_strlit("&#x2F;");
    reveal_strlit("&#x2f;");
    reveal_strlit("&nbsp;");
    reveal_strlit("&");
    reveal_strlit("<");
    reveal_strlit(">");
    reveal_strlit("\"");
    reveal_strlit("'");
    reveal_strlit("/");
    reveal_strlit(" ");
    let e = "&gt;"@;
    let c = seq!['\u{3e}'];
    assert(">"@ =~= c);
    assert(!e.drop_first().contains('&'));
    let s = before + e + after;
    lemma_other_entity(before, e, after, "&amp;"@, "&"@, 1);
    let tail = e.drop_first() + after;
    lemma_both_without(e.drop_first(), after);
    lemma_this_entity(before, "&amp;"@, tail, "&"@);
    assert(before + "&amp;"@ + e.drop_first() + after =~= before + "&amp;"@ + tail);
    assert(before + "&"@ + tail =~= s);
    lemma_other_entity(before, e, after, "&lt;"@, "<"@, 1);
    lemma_this_entity(before, e, after, ">"@);
    let done = before + c + after;
    lemma_both_without(before, c);
    lemma_both_without(before + c, after);
    lemma_replaced_without(done, "&quot;"@, "\""@);
    lemma_replaced_without(done, "&#39;"@, "'"@);
    lemma_replaced_without(done, "&#x27;"@, "'"@);
    lemma_replaced_without(done, "&#x2F;"@, "/"@);
    lemma_replaced_without(done, "&#x2f;"@, "/"@);
    lemma_replaced_without(done, "&nbsp;"@, " "@);
}

proof fn lemma_entity_quot(before: Seq<char>, after: Seq<char>)
    requires
        !before.contains('&'),
        !after.contains('&'),
    ensures
        unescaped(before + "&quot;"@ + after) == before + seq!['\u{22}'] + after,
        unescaped(before + "&amp;"@ + "&quot;"@.drop_first() + after) == before + seq!['\u{22}'] + after,
{
    reveal_strlit("&amp;");
    reveal_strlit("&lt;");
    reveal_strlit("&gt;");
    reveal_strlit("&quot;");
    reveal_strlit("&#39;");
    reveal_strlit("&#x27;");
    reveal_strlit("&#x2F;");
    reveal_strlit("&#x2f;");
    reveal_strlit("&nbsp;");
    reveal_strlit("&");
    reveal_strlit("<");
    reveal_strlit(">");
    reveal_strlit("\"");
    reveal_strlit("'");
    reveal_strlit("/");
    reveal_strlit(" ");
    let e = "&quot;"@;
    let c = seq!['\u{22}'];
    assert("\""@ =~= c);
    assert(!e.drop_first().contains('&'));
    let s = before + e + after;
    lemma_other_entity(before, e, after, "&amp;"@, "&"@, 1);
    let tail = e.drop_first() + after;
    lemma_both_without(e.drop_first(), after);
    lemma_this_entity(before, "&amp;"@, tail, "&"@);
    assert(before + "&amp;"@ + e.drop_first() + after =~= before + "&amp;"@ + tail);
    assert(before + "&"@ + tail =~= s);
    lemma_other_entity(before, e, after, "&lt;"@, "<"@, 1);
    lemma_other_entity(before, e, after, "&gt;"@, ">"@, 1);
    lemma_this_entity(before, e, after, "\""@);
    let done = before + c + after;
    lemma_both_without(before, c);
    lemma_both_without(before + c, after);
    lemma_replaced_without(done, "&#39;"@, "'"@);
    lemma_replaced_without(done, "&#x27;"@, "'"@);
    lemma_replaced_without(done, "&#x2F;"@, "/"@);
    lemma_replaced_without(done, "&#x2f;"@, "/"@);
    lemma_replaced_without(done, "&nbsp;"@, " "@);
}

proof fn lemma_entity_apos(before: Seq<char>, after: Seq<char>)
    requires
        !before.contains('&'),
        !after.contains('&'),
    ensures
        unescaped(before + "&#39;"@ + after) == before + seq!['\u{27}'] + after,
        unescaped(before + "&amp;"@ + "&#39;"@.drop_first() + after) == before + seq!['\u{27}'] + after,
{
    reveal_strlit("&amp;");
    reveal_strlit("&lt;");
    reveal_strlit("&gt;");
    reveal_strlit("&quot;");
    reveal_strlit("&#39;");
    reveal_strlit("&#x27;");
    reveal_strlit("&#x2F;");
    reveal_strlit("&#x2f;");
    reveal_strlit("&nbsp;");
    reveal_strlit("&");
    reveal_strlit("<");
    reveal_strlit(">");
    reveal_strlit("\"");
    reveal_strlit("'");
    reveal_strlit("/");
    reveal_strlit(" ");
    let e = "&#39;"@;
    let c = seq!['\u{27}'];
    assert("'"@ =~= c);
    assert(!e.drop_first().contains('&'));
    let s = before + e + after;
    lemma_other_entity(before, e, after, "&amp;"@, "&"@, 1);
    let tail = e.drop_first() + after;
    lemma_both_without(e.drop_first(), after);
    lemma_this_entity(before, "&amp;"@, tail, "&"@);
    assert(before + "&amp;"@ + e.drop_first() + after =~= before + "&amp;"@ + tail);
    assert(before + "&"@ + tail =~= s);
    lemma_other_entity(before, e, after, "&lt;"@, "<"@, 1);
    lemma_other_entity(before, e, after, "&gt;"@, ">"@, 1);
    lemma_other_entity(before, e, after, "&quot;"@, "\""@, 1);
    lemma_this_entity(before, e, after, "'"@);
    let done = before + c + after;
    lemma_both_without(before, c);
    lemma_both_without(before + c, after);
    lemma_replaced_without(done, "&#x27;"@, "'"@);
    lemma_replaced_without(done, "&#x2F;"@, "/"@);
    lemma_replaced_without(done, "&#x2f;"@, "/"@);
    lemma_replaced_without(done, "&nbsp;"@, " "@);
}

proof fn lemma_entity_hex_apos(before: Seq<char>, after: Seq<char>)
    requires
        !before.contains('&'),
        !after.contains('&'),
    ensures
        unescaped(before + "&#x27;"@ + after) == before + seq!['\u{27}'] + after,
        unescaped(before + "&amp;"@ + "&#x27;"@.drop_first() + after) == before + seq!['\u{27}'] + after,
{
    reveal_strlit("&amp;");
    reveal_strlit("&lt;");
    reveal_strlit("&gt;");
    reveal_strlit("&quot;");
    reveal_strlit("&#39;");
    reveal_strlit("&#x27;");
    reveal_strlit("&#x2F;");
    reveal_strlit("&#x2f;");
    reveal_strlit("&nbsp;");
    reveal_strlit("&");
    reveal_strlit("<");
    reveal_strlit(">");
    reveal_strlit("\"");
    reveal_strlit("'");
    reveal_strlit("/");
    reveal_strlit(" ");
    let e = "&#x27;"@;
    let c = seq!['\u{27}'];
    assert("'"@ =~= c);
    assert(!e.drop_first().contains('&'));
    let s = before + e + after;
    lemma_other_entity(before, e, after, "&amp;"@, "&"@, 1);
    let tail = e.drop_first() + after;
    lemma_both_without(e.drop_first(), after);
    lemma_this_entity(before, "&amp;"@, tail, "&"@);
    assert(before + "&amp;"@ + e.drop_first() + after =~= before + "&amp;"@ + tail);
    assert(before + "&"@ + tail =~= s);
    lemma_other_entity(before, e, after, "&lt;"@, "<"@, 1);
    lemma_other_entity(before, e, after, "&gt;"@, ">"@, 1);
    lemma_other_entity(before, e, after, "&quot;"@, "\""@, 1);
    lemma_other_entity(before, e, after, "&#39;"@, "'"@, 2);
    lemma_this_entity(before, e, after, "'"@);
    let done = before + c + after;
    lemma_both_without(before, c);
    lemma_both_without(before + c, after);
    lemma_replaced_without(done, "&#x2F;"@, "/"@);
    lemma_replaced_without(done, "&#x2f;"@, "/"@);
    lemma_replaced_without(done, "&nbsp;"@, " "@);
}

proof fn lemma_entity_slash(before: Seq<char>, after: Seq<char>)
    requires
        !before.contains('&'),
        !after.contains('&'),
    ensures
        unescaped(before + "&#x2F;"@ + after) == before + seq!['\u{2f}'] + after,
        unescaped(before + "&amp;"@ + "&#x2F;"@.drop_first() + after) == before + seq!['\u{2f}'] + after,
{
    reveal_strlit("&amp;");
    reveal_strlit("&lt;");
    reveal_strlit("&gt;");
    reveal_strlit("&quot;");
    reveal_strlit("&#39;");
    reveal_strlit("&#x27;");
    reveal_strlit("&#x2F;");
    reveal_strlit("&#x2f;");
    reveal_strlit("&nbsp;");
    reveal_strlit("&");
    reveal_strlit("<");
    reveal_strlit(">");
    reveal_strlit("\"");
    reveal_strlit("'");
    reveal_strlit("/");
    reveal_strlit(" ");
    let e = "&#x2F;"@;
    let c = seq!['\u{2f}'];
    assert("/"@ =~= c);
    assert(!e.drop_first().contains('&'));
    let s = before + e + after;
    lemma_other_entity(before, e, after, "&amp;"@, "&"@, 1);
    let tail = e.drop_first() + after;
    lemma_both_without(e.drop_first(), after);
    lemma_this_entity(before, "&amp;"@, tail, "&"@);
    assert(before + "&amp;"@ + e.drop_first() + after =~= before + "&amp;"@ + tail);
    assert(before + "&"@ + tail =~= s);
    lemma_other_entity(before, e, after, "&lt;"@, "<"@, 1);
    lemma_other_entity(before, e, after, "&gt;"@, ">"@, 1);
    lemma_other_entity(before, e, after, "&quot;"@, "\""@, 1);
    lemma_other_entity(before, e, after, "&#39;"@, "'"@, 2);
    lemma_other_entity(before, e, after, "&#x27;"@, "'"@, 4);
    lemma_this_entity(before, e, after, "/"@);
    let done = before + c + after;
    lemma_both_without(before, c);
    lemma_both_without(before + c, after);
    lemma_replaced_without(done, "&#x2f;"@, "/"@);
    lemma_replaced_without(done, "&nbsp;"@, " "@);
}

proof fn lemma_entity_small_slash(before: Seq<char>, after: Seq<char>)
    requires
        !before.contains('&'),
        !after.contains('&'),
    ensures
        unescaped(before + "&#x2f;"@ + after) == before + seq!['\u{2f}'] + after,
        unescaped(before + "&amp;"@ + "&#x2f;"@.drop_first() + after) == before + seq!['\u{2f}'] + after,
{
    reveal_strlit("&amp;");
    reveal_strlit("&lt;");
    reveal_strlit("&gt;");
    reveal_strlit("&quot;");
    reveal_strlit("&#39;");
    reveal_strlit("&#x27;");
    reveal_strlit("&#x2F;");
    reveal_strlit("&#x2f;");
    reveal_strlit("&nbsp;");
    reveal_strlit("&");
    reveal_strlit("<");
    reveal_strlit(">");
    reveal_strlit("\"");
    reveal_strlit("'");
    reveal_strlit("/");
    reveal_strlit(" ");
    let e = "&#x2f;"@;
    let c = seq!['\u{2f}'];
    assert("/"@ =~= c);
    assert(!e.drop_first().contains('&'));
    let s = before + e + after;
    lemma_other_entity(before, e, after, "&amp;"@, "&"@, 1);
    let tail = e.drop_first() + after;
    lemma_both_without(e.drop_first(), after);
    lemma_this_entity(before, "&amp;"@, tail, "&"@);
    assert(before + "&amp;"@ + e.drop_first() + after =~= before + "&amp;"@ + tail);
    assert(before + "&"@ + tail =~= s);
    lemma_other_entity(before, e, after, "&lt;"@, "<"@, 1);
    lemma_other_entity(before, e, after, "&gt;"@, ">"@, 1);
    lemma_other_entity(before, e, after, "&quot;"@, "\""@, 1);
    lemma_other_entity(before, e, after, "&#39;"@, "'"@, 2);
    lemma_other_entity(before, e, after, "&#x27;"@, "'"@, 4);
    lemma_other_entity(before, e, after, "&#x2F;"@, "/"@, 4);
    lemma_this_entity(before, e, after, "/"@);
    let done = before + c + after;
    lemma_both_without(before, c);
    lemma_both_without(before + c, after);
    lemma_replaced_without(done, "&nbsp;"@, " "@);
}

proof fn lemma_entity_space(before: Seq<char>, after: Seq<char>)
    requires
        !before.contains('&'),
        !after.contains('&'),
    ensures
        unescaped(before + "&nbsp;"@ + after) == before + seq![' '] + after,
        unescaped(before + "&amp;"@ + "&nbsp;"@.drop_first() + after) == before + seq![' '] + after,
{
    reveal_strlit("&amp;");
    reveal_strlit("&lt;");
    reveal_strlit("&gt;");
    reveal_strlit("&quot;");
    reveal_strlit("&#39;");
    reveal_strlit("&#x27;");
    reveal_strlit("&#x2F;");
    reveal_strlit("&#x2f;");
    reveal_strlit("&nbsp;");
    reveal_strlit("&");
    reveal_strlit("<");
    reveal_strlit(">");
    reveal_strlit("\"");
    reveal_strlit("'");
    reveal_strlit("/");
    reveal_strlit(" ");
    let e = "&nbsp;"@;
    let c = seq![' '];
    assert(" "@ =~= c);
    assert(!e.drop_first().contains('&'));
    let s = before + e + after;
    lemma_other_entity(before, e, after, "&amp;"@, "&"@, 1);
    let tail = e.drop_first() + after;
    lemma_both_without(e.drop_first(), after);
    lemma_this_entity(before, "&amp;"@, tail, "&"@);
    assert(before + "&amp;"@ + e.drop_first() + after =~= before + "&amp;"@ + tail);
    assert(before + "&"@ + tail =~= s);
    lemma_other_entity(before, e, after, "&lt;"@, "<"@, 1);
    lemma_other_entity(before, e, after, "&gt;"@, ">"@, 1);
    lemma_other_entity(before, e, after, "&quot;"@, "\""@, 1);
    lemma_other_entity(before, e, after, "&#39;"@, "'"@, 1);
    lemma_other_entity(before, e, after, "&#x27;"@, "'"@, 1);
    lemma_other_entity(before, e, after, "&#x2F;"@, "/"@, 1);
    lemma_other_entity(before, e, after, "&#x2f;"@, "/"@, 1);
    lemma_this_entity(before, e, after, " "@);
    let done = before + c + after;
    lemma_both_without(before, c);
    lemma_both_without(before + c, after);
}

proof fn lemma_entity_amp(before: Seq<char>, after: Seq<char>)
    requires
        !before.contains('&'),
        !after.contains('&'),
        !after.contains(';'),
    ensures
        unescaped(before + "&amp;"@ + after) == before + seq!['\u{26}'] + after,
{
    reveal_strlit("&amp;");
    reveal_strlit("&lt;");
    reveal_strlit("&gt;");
    reveal_strlit("&quot;");
    reveal_strlit("&#39;");
    reveal_strlit("&#x27;");
    reveal_strlit("&#x2F;");
    reveal_strlit("&#x2f;");
    reveal_strlit("&nbsp;");
    reveal_strlit("&");
    reveal_strlit("<");
    reveal_strlit(">");
    reveal_strlit("\"");
    reveal_strlit("'");
    reveal_strlit("/");
    reveal_strlit(" ");
    assert("&"@ =~= seq!['&']);
    lemma_this_entity(before, "&amp;"@, after, "&"@);
    lemma_lone_ampersand(before, after, "&lt;"@, "<"@);
    lemma_lone_ampersand(before, after, "&gt;"@, ">"@);
    lemma_lone_ampersand(before, after, "&quot;"@, "\""@);
    lemma_lone_ampersand(before, after, "&#39;"@, "'"@);
    lemma_lone_ampersand(before, after, "&#x27;"@, "'"@);
    lemma_lone_ampersand(before, after, "&#x2F;"@, "/"@);
    lemma_lone_ampersand(before, after, "&#x2f;"@, "/"@);
    lemma_lone_ampersand(before, after, "&nbsp;"@, " "@);
}

/// Each of the entities, wherever it stands, is turned into the one character that HTML gives
/// it, and what stands around it is left as it is. An escaped ampersand is resolved first, and
/// may so complete another entity.
pub proof fn entities_stand_for_their_characters(before: Seq<char>, after: Seq<char>)
    requires
        !before.contains('&'),
        !after.contains('&'),
    ensures
        unescaped(before + "&lt;"@ + after) == before + seq!['\u{3c}'] + after,
        unescaped(before + "&gt;"@ + after) == before + seq!['\u{3e}'] + after,
        unescaped(before + "&quot;"@ + after) == before + seq!['\u{22}'] + after,
        unescaped(before + "&#39;"@ + after) == before + seq!['\u{27}'] + after,
        unescaped(before + "&#x27;"@ + after) == before + seq!['\u{27}'] + after,
        unescaped(before + "&#x2F;"@ + after) == before + seq!['\u{2f}'] + after,
        unescaped(before + "&#x2f;"@ + after) == before + seq!['\u{2f}'] + after,
        unescaped(before + "&nbsp;"@ + after) == before + seq![' '] + after,
        !after.contains(';') ==> unescaped(before + "&amp;"@ + after) == before + seq!['\u{26}']
            + after,
        unescaped(before + "&amp;"@ + "lt;"@ + after) == before + seq!['\u{3c}'] + after,
        unescaped(before + "&amp;"@ + "gt;"@ + after) == before + seq!['\u{3e}'] + after,
        unescaped(before + "&amp;"@ + "quot;"@ + after) == before + seq!['\u{22}'] + after,
        unescaped(before + "&amp;"@ + "#39;"@ + after) == before + seq!['\u{27}'] + after,
        unescaped(before + "&amp;"@ + "#x27;"@ + after) == before + seq!['\u{27}'] + after,
        unescaped(before + "&amp;"@ + "#x2F;"@ + after) == before + seq!['\u{2f}'] + after,
        unescaped(before + "&amp;"@ + "#x2f;"@ + after) == before + seq!['\u{2f}'] + after,
        unescaped(before + "&amp;"@ + "nbsp;"@ + after) == before + seq![' '] + after,
{
    lemma_entity_lt(before, after);
    reveal_strlit("&lt;");
    reveal_strlit("lt;");
    assert("&lt;"@.drop_first() =~= "lt;"@);
    lemma_entity_gt(before, after);
    reveal_strlit("&gt;");
    reveal_strlit("gt;");
    assert("&gt;"@.drop_first() =~= "gt;"@);
    lemma_entity_quot(before, after);
    reveal_strlit("&quot;");
    reveal_strlit("quot;");
    assert("&quot;"@.drop_first() =~= "quot;"@);
    lemma_entity_apos(before, after);
    reveal_strlit("&#39;");
    reveal_strlit("#39;");
    assert("&#39;"@.drop_first() =~= "#39;"@);
    lemma_entity_hex_apos(before, after);
    reveal_strlit("&#x27;");
    reveal_strlit("#x27;");
    assert("&#x27;"@.drop_first() =~= "#x27;"@);
    lemma_entity_slash(before, after);
    reveal_strlit("&#x2F;");
    reveal_strlit("#x2F;");
    assert("&#x2F;"@.drop_first() =~= "#x2F;"@);
    lemma_entity_small_slash(before, after);
    reveal_strlit("&#x2f;");
    reveal_strlit("#x2f;");
    assert("&#x2f;"@.drop_first() =~= "#x2f;"@);
    lemma_entity_space(before, after);
    reveal_strlit("&nbsp;");
    reveal_strlit("nbsp;");
    assert("&nbsp;"@.drop_first() =~= "nbsp;"@);
    if !after.contains(';') {
        lemma_entity_amp(before, after);
    }
}

/// A text without characters that carry a meaning in a pattern stands there as it is.
proof fn lemma_nothing_to_escape(s: Seq<char>)
    requires
        forall|i: int| 0 <= i < s.len() ==> !matching::is_meta(#[trigger] s[i]),
    ensures
        matching::regex_escaped(s) == s,
    decreases s.len(),
{
    if s.len() > 0 {
        assert forall|i: int| 0 <= i < s.drop_first().len() implies !matching::is_meta(
            #[trigger] s.drop_first()[i],
        ) by {
            assert(s.drop_first()[i] == s[i + 1]);
        }
        lemma_nothing_to_escape(s.drop_first());
        assert(seq![s[0]] + s.drop_first() =~= s);
    }
}

proof fn lemma_pattern_og_title()
    ensures
        tag_pattern(PROPERTY_HEAD@, "og:title"@)
            == "<meta[^>]+property\\s*=\\s*[\"']og:title[\"'][^>]*content\\s*=\\s*[\"']([^\"']+)[\"']"@,
{
    reveal_strlit("<meta[^>]+property\\s*=\\s*[\"']");
    reveal_strlit("[\"'][^>]*content\\s*=\\s*[\"']([^\"']+)[\"']");
    reveal_strlit("og:title");
    reveal_strlit("<meta[^>]+property\\s*=\\s*[\"']og:title[\"'][^>]*content\\s*=\\s*[\"']([^\"']+)[\"']");
    let key = "og:title"@;
    assert forall|i: int| 0 <= i < key.len() implies !matching::is_meta(#[trigger] key[i]) by {}
    lemma_nothing_to_escape(key);
    assert(PROPERTY_HEAD@ + key + CONTENT_TAIL@
        =~= "<meta[^>]+property\\s*=\\s*[\"']og:title[\"'][^>]*content\\s*=\\s*[\"']([^\"']+)[\"']"@);
}

proof fn lemma_pattern_twitter_title()
    ensures
        tag_pattern(NAME_HEAD@, "twitter:title"@)
            == "<meta[^>]+name\\s*=\\s*[\"']twitter:title[\"'][^>]*content\\s*=\\s*[\"']([^\"']+)[\"']"@,
{
    reveal_strlit("<meta[^>]+name\\s*=\\s*[\"']");
    reveal_strlit("[\"'][^>]*content\\s*=\\s*[\"']([^\"']+)[\"']");
    reveal_strlit("twitter:title");
    reveal_strlit("<meta[^>]+name\\s*=\\s*[\"']twitter:title[\"'][^>]*content\\s*=\\s*[\"']([^\"']+)[\"']");
    let key = "twitter:title"@;
    assert forall|i: int| 0 <= i < key.len() implies !matching::is_meta(#[trigger] key[i]) by {}
    lemma_nothing_to_escape(key);
    assert(NAME_HEAD@ + key + CONTENT_TAIL@
        =~= "<meta[^>]+name\\s*=\\s*[\"']twitter:title[\"'][^>]*content\\s*=\\s*[\"']([^\"']+)[\"']"@);
}

proof fn lemma_pattern_og_description()
    ensures
        tag_pattern(PROPERTY_HEAD@, "og:description"@)
            == "<meta[^>]+property\\s*=\\s*[\"']og:description[\"'][^>]*content\\s*=\\s*[\"']([^\"']+)[\"']"@,
{
    reveal_strlit("<meta[^>]+property\\s*=\\s*[\"']");
    reveal_strlit("[\"'][^>]*content\\s*=\\s*[\"']([^\"']+)[\"']");
    reveal_strlit("og:description");
    reveal_strlit("<meta[^>]+property\\s*=\\s*[\"']og:description[\"'][^>]*content\\s*=\\s*[\"']([^\"']+)[\"']");
    let key = "og:description"@;
    assert forall|i: int| 0 <= i < key.len() implies !matching::is_meta(#[trigger] key[i]) by {}
    lemma_nothing_to_escape(key);
    assert(PROPERTY_HEAD@ + key + CONTENT_TAIL@
        =~= "<meta[^>]+property\\s*=\\s*[\"']og:description[\"'][^>]*content\\s*=\\s*[\"']([^\"']+)[\"']"@);
}

proof fn lemma_pattern_description()
    ensures
        tag_pattern(NAME_HEAD@, "description"@)
            == "<meta[^>]+name\\s*=\\s*[\"']description[\"'][^>]*content\\s*=\\s*[\"']([^\"']+)[\"']"@,
{
    reveal_strlit("<meta[^>]+name\\s*=\\s*[\"']");
    reveal_strlit("[\"'][^>]*content\\s*=\\s*[\"']([^\"']+)[\"']");
    reveal_strlit("description");
    reveal_strlit("<meta[^>]+name\\s*=\\s*[\"']description[\"'][^>]*content\\s*=\\s*[\"']([^\"']+)[\"']");
    let key = "description"@;
    assert forall|i: int| 0 <= i < key.len() implies !matching::is_meta(#[trigger] key[i]) by {}
    lemma_nothing_to_escape(key);
    assert(NAME_HEAD@ + key + CONTENT_TAIL@
        =~= "<meta[^>]+name\\s*=\\s*[\"']description[\"'][^>]*content\\s*=\\s*[\"']([^\"']+)[\"']"@);
}

proof fn lemma_pattern_twitter_description()
    ensures
        tag_pattern(NAME_HEAD@, "twitter:description"@)
            == "<meta[^>]+name\\s*=\\s*[\"']twitter:description[\"'][^>]*content\\s*=\\s*[\"']([^\"']+)[\"']"@,
{
    reveal_strlit("<meta[^>]+name\\s*=\\s*[\"']");
    reveal_strlit("[\"'][^>]*content\\s*=\\s*[\"']([^\"']+)[\"']");
    reveal_strlit("twitter:description");
    reveal_strlit("<meta[^>]+name\\s*=\\s*[\"']twitter:description[\"'][^>]*content\\s*=\\s*[\"']([^\"']+)[\"']");
    let key = "twitter:description"@;
    assert forall|i: int| 0 <= i < key.len() implies !matching::is_meta(#[trigger] key[i]) by {}
    lemma_nothing_to_escape(key);
    assert(NAME_HEAD@ + key + CONTENT_TAIL@
        =~= "<meta[^>]+name\\s*=\\s*[\"']twitter:description[\"'][^>]*content\\s*=\\s*[\"']([^\"']+)[\"']"@);
}

/// The title is what the first tag of these holds that is there and not empty: the `og:title`
/// property, the `twitter:title` name; else it is the text of the title element, trimmed.
/// Entities are resolved in each.
pub proof fn titles_come_from_the_first_tag_that_has_one(html: Seq<char>)
    ensures
        ({
            let og = matching::regex_group_one(
                "<meta[^>]+property\\s*=\\s*[\"']og:title[\"'][^>]*content\\s*=\\s*[\"']([^\"']+)[\"']"@,
                html,
            );
            let twitter = matching::regex_group_one(
                "<meta[^>]+name\\s*=\\s*[\"']twitter:title[\"'][^>]*content\\s*=\\s*[\"']([^\"']+)[\"']"@,
                html,
            );
            let element = matching::regex_group_one("<title[^>]*>([^<]+)</title>"@, html);
            let has_og = og is Some && og->0 != Seq::<char>::empty();
            let has_twitter = twitter is Some && twitter->0 != Seq::<char>::empty();
            &&& has_og ==> page_title(html) == Some(unescaped(og->0))
            &&& !has_og && has_twitter ==> page_title(html) == Some(unescaped(twitter->0))
            &&& !has_og && !has_twitter && element is Some ==> page_title(html) == Some(
                unescaped(text::trimmed(element->0)),
            )
            &&& !has_og && !has_twitter && element is None ==> page_title(html) is None
        }),
{
    lemma_pattern_og_title();
    lemma_pattern_twitter_title();
    lemma_empty_or_usable(meta_property(html, "og:title"@));
    lemma_empty_or_usable(meta_name(html, "twitter:title"@));
}

proof fn lemma_empty_or_usable(candidate: Option<Seq<char>>)
    ensures
        is_usable(candidate) <==> candidate is Some && candidate->0 != Seq::<char>::empty(),
{
    if candidate is Some && candidate->0.len() == 0 {
        assert(candidate->0 =~= Seq::<char>::empty());
    }
}

/// The description is what the first tag of these holds that is there and not empty: the
/// `og:description` property, the `description` name, the `twitter:description` name. Entities
/// are resolved in each.
pub proof fn descriptions_come_from_the_first_tag_that_has_one(html: Seq<char>)
    ensures
        ({
            let og = matching::regex_group_one(
                "<meta[^>]+property\\s*=\\s*[\"']og:description[\"'][^>]*content\\s*=\\s*[\"']([^\"']+)[\"']"@,
                html,
            );
            let plain = matching::regex_group_one(
                "<meta[^>]+name\\s*=\\s*[\"']description[\"'][^>]*content\\s*=\\s*[\"']([^\"']+)[\"']"@,
                html,
            );
            let twitter = matching::regex_group_one(
                "<meta[^>]+name\\s*=\\s*[\"']twitter:description[\"'][^>]*content\\s*=\\s*[\"']([^\"']+)[\"']"@,
                html,
            );
            let has_og = og is Some && og->0 != Seq::<char>::empty();
            let has_plain = plain is Some && plain->0 != Seq::<char>::empty();
            let has_twitter = twitter is Some && twitter->0 != Seq::<char>::empty();
            &&& has_og ==> page_description(html) == Some(unescaped(og->0))
            &&& !has_og && has_plain ==> page_description(html) == Some(unescaped(plain->0))
            &&& !has_og && !has_plain && has_twitter ==> page_description(html) == Some(
                unescaped(twitter->0),
            )
            &&& !has_og && !has_plain && !has_twitter ==> page_description(html) is None
        }),
{
    lemma_pattern_og_description();
    lemma_pattern_description();
    lemma_pattern_twitter_description();
    lemma_empty_or_usable(meta_property(html, "og:description"@));
    lemma_empty_or_usable(meta_name(html, "description"@));
    lemma_empty_or_usable(meta_name(html, "twitter:description"@));
}

/// The picture is looked for in the `og:image` property and the `twitter:image` name, whichever
/// comes first.
pub proof fn pictures_are_named_by_two_tags()
    ensures
        IMAGE_PATTERN@
            == "<meta[^>]+(?:property\\s*=\\s*[\"']og:image[\"']|name\\s*=\\s*[\"']twitter:image[\"'])[^>]*content\\s*=\\s*[\"']([^\"']+)[\"']"@,
{
}

/// What is read of a page is its title, its description and its picture, with the entities
/// resolved in the first two.
pub proof fn pages_are_read_tag_by_tag(
    html: &str,
    name: &str,
    title: Option<String>,
    description: Option<String>,
    image: Option<String>,
    element: Option<String>,
    property: Option<String>,
    named: Option<String>,
    plain: String,
)
    requires
        call_ensures(extract_title, (html,), title),
        call_ensures(extract_description, (html,), description),
        call_ensures(extract_og_image, (html,), image),
        call_ensures(extract_html_title, (html,), element),
        call_ensures(extract_meta_property, (html, name), property),
        call_ensures(extract_meta_name, (html, name), named),
        call_ensures(html_unescape, (html,), plain),
    ensures
        text::opt_text(title) == page_title(html@),
        text::opt_text(description) == page_description(html@),
        text::opt_text(image) == matching::regex_group_one(IMAGE_PATTERN@, html@),
        plain@ == unescaped(html@),
        ({
            let found = matching::regex_group_one("<title[^>]*>([^<]+)</title>"@, html@);
            &&& element is Some <==> found is Some
            &&& element is Some ==> element->0@ == text::trimmed(found->0)
        }),
        text::opt_text(property) == matching::regex_group_one(
            "<meta[^>]+property\\s*=\\s*[\"']"@ + matching::regex_escaped(name@)
                + "[\"'][^>]*content\\s*=\\s*[\"']([^\"']+)[\"']"@,
            html@,
        ),
        text::opt_text(named) == matching::regex_group_one(
            "<meta[^>]+name\\s*=\\s*[\"']"@ + matching::regex_escaped(name@)
                + "[\"'][^>]*content\\s*=\\s*[\"']([^\"']+)[\"']"@,
            html@,
        ),
{
}

/// Of the tags' contents the first that is there and not empty is chosen, with its entities
/// resolved.
pub proof fn the_first_usable_content_is_chosen(
    first: Option<String>,
    second: Option<String>,
    third: Option<String>,
    title: Option<String>,
    description: Option<String>,
)
    requires
        call_ensures(choose_title, (first, second, third), title),
        call_ensures(choose_description, (first, second, third), description),
    ensures
        ({
            let usable = |content: Option<String>| content is Some && content->0@.len() > 0;
            &&& usable(first) ==> title is Some && title->0@ == unescaped(first->0@)
                && description is Some && description->0@ == unescaped(first->0@)
            &&& !usable(first) && usable(second) ==> title is Some && title->0@ == unescaped(
                second->0@,
            ) && description is Some && description->0@ == unescaped(second->0@)
            &&& !usable(first) && !usable(second) ==> (title is Some <==> third is Some) && (
            third is Some ==> title->0@ == unescaped(third->0@)) && (description is Some <==> usable(
                third,
            )) && (usable(third) ==> description->0@ == unescaped(third->0@))
        }),
{
}

} // verus!
