//! Links in chat messages: where they stand, how they are shown, what a page says of itself.

use vstd::prelude::*;
use vstd::string::*;
use vstd::utf8::*;

use crate::text;
use crate::url_match;

verus! {

/// A part of a message: plain text or a detected address.
#[derive(Debug, Clone)]
pub enum TextSegment {
    /// Regular text content.
    Text(String),
    /// A detected URL.
    Url(String),
}

/// What a [`TextSegment`] holds.
pub enum SegmentView {
    Text(Seq<char>),
    Url(Seq<char>),
}

impl View for TextSegment {
    type V = SegmentView;

    open spec fn view(&self) -> SegmentView {
        match self {
            TextSegment::Text(t) => SegmentView::Text(t@),
            TextSegment::Url(u) => SegmentView::Url(u@),
        }
    }
}

impl SegmentView {
    /// The characters of the segment.
    pub open spec fn chars(self) -> Seq<char> {
        match self {
            SegmentView::Text(t) => t,
            SegmentView::Url(u) => u,
        }
    }
}

/// What each segment of a list holds.
pub open spec fn segment_views(segments: Seq<TextSegment>) -> Seq<SegmentView> {
    segments.map_values(|s: TextSegment| s@)
}

/// The text that stands in `body` between byte `from` and byte `to`, where there is any.
pub open spec fn gap_segment(body: Seq<char>, from: int, to: int) -> Seq<SegmentView> {
    if from < to {
        seq![SegmentView::Text(text::byte_slice(body, from, to))]
    } else {
        Seq::empty()
    }
}

/// The segments of `body` from byte `from` on, where `ranges` are the addresses that follow.
pub open spec fn segments_from(body: Seq<char>, ranges: Seq<(usize, usize)>, from: int) -> Seq<
    SegmentView,
>
    decreases ranges.len(),
{
    if ranges.len() == 0 {
        gap_segment(body, from, encode_utf8(body).len() as int)
    } else {
        let (start, end) = ranges[0];
        gap_segment(body, from, start as int)
            + seq![SegmentView::Url(text::byte_slice(body, start as int, end as int))]
            + segments_from(body, ranges.drop_first(), end as int)
    }
}

/// The segments of `body` where `ranges` are its addresses; an empty body is one empty text.
pub open spec fn segments_of(body: Seq<char>, ranges: Seq<(usize, usize)>) -> Seq<SegmentView> {
    let segments = segments_from(body, ranges, 0);
    if segments.len() == 0 {
        seq![SegmentView::Text(body)]
    } else {
        segments
    }
}

/// Splits `body` at the given addresses.
pub fn split_segments(body: &str, ranges: &Vec<(usize, usize)>) -> (segments: Vec<TextSegment>)
    requires
        url_match::ranges_in_order(body@, ranges@),
    ensures
        segment_views(segments@) == segments_of(body@, ranges@),
{
    let mut segments: Vec<TextSegment> = Vec::new();
    let mut last_end: usize = 0;
    let mut i: usize = 0;
    let ghost all = segments_from(body@, ranges@, 0);
    proof {
        text::lemma_byte_slice_ends(body@, 0);
        assert(ranges@.skip(0) =~= ranges@);
        assert(segment_views(segments@) + all =~= all);
    }
    while i < ranges.len()
        invariant
            i <= ranges.len(),
            url_match::ranges_in_order(body@, ranges@),
            text::is_byte_range(body@, last_end as int, encode_utf8(body@).len() as int),
            i < ranges.len() ==> last_end <= ranges@[i as int].0,
            all == segment_views(segments@) + segments_from(
                body@,
                ranges@.skip(i as int),
                last_end as int,
            ),
        decreases ranges.len() - i,
    {
        let (start, end) = ranges[i];
        let ghost before = segment_views(segments@);
        assert(text::is_byte_range(body@, start as int, end as int));
        if start > last_end {
            let text = text::slice_bytes(body, last_end, start);
            segments.push(TextSegment::Text(text));
        }
        let url = text::slice_bytes(body, start, end);
        segments.push(TextSegment::Url(url));
        proof {
            let rest = ranges@.skip(i as int);
            assert(rest.drop_first() =~= ranges@.skip(i + 1));
            assert(segment_views(segments@) =~= before + gap_segment(
                body@,
                last_end as int,
                start as int,
            ) + seq![SegmentView::Url(text::byte_slice(body@, start as int, end as int))]);
            assert(all =~= segment_views(segments@) + segments_from(
                body@,
                ranges@.skip(i + 1),
                end as int,
            ));
        }
        last_end = end;
        i += 1;
    }
    let ghost before = segment_views(segments@);
    if last_end < text::byte_len(body) {
        let text = text::slice_bytes(body, last_end, text::byte_len(body));
        segments.push(TextSegment::Text(text));
    }
    assert(segment_views(segments@) =~= all);
    if segments.is_empty() {
        segments.push(TextSegment::Text(body.to_owned()));
        assert(segment_views(segments@) =~= seq![SegmentView::Text(body@)]);
    }
    segments
}

/// Splits message text into plain text and addresses.
pub fn parse_url_segments(body: &str) -> (segments: Vec<TextSegment>)
    ensures
        segment_views(segments@) == segments_of(body@, url_match::url_ranges(body@)),
        joined(segment_views(segments@)) == body@,
{
    let ranges = url_match::find_urls(body);
    proof {
        segments_rejoin_to_body(body@, ranges@);
    }
    split_segments(body, &ranges)
}

/// The characters of all segments, one after the other.
pub open spec fn joined(segments: Seq<SegmentView>) -> Seq<char>
    decreases segments.len(),
{
    if segments.len() == 0 {
        Seq::empty()
    } else {
        segments[0].chars() + joined(segments.drop_first())
    }
}

proof fn lemma_joined_concat(a: Seq<SegmentView>, b: Seq<SegmentView>)
    ensures
        joined(a + b) == joined(a) + joined(b),
    decreases a.len(),
{
    if a.len() == 0 {
        assert(a + b =~= b);
        assert(joined(a) + joined(b) =~= joined(b));
    } else {
        lemma_joined_concat(a.drop_first(), b);
        assert((a + b).drop_first() =~= a.drop_first() + b);
        assert(a[0].chars() + (joined(a.drop_first()) + joined(b)) =~= joined(a) + joined(b));
    }
}

proof fn lemma_gap_segment_joined(body: Seq<char>, from: int, to: int)
    requires
        text::is_byte_range(body, from, to),
    ensures
        joined(gap_segment(body, from, to)) == text::byte_slice(body, from, to),
{
    if from < to {
        let one = seq![SegmentView::Text(text::byte_slice(body, from, to))];
        assert(one.drop_first() =~= Seq::<SegmentView>::empty());
        reveal_with_fuel(joined, 2);
        assert(joined(one) =~= text::byte_slice(body, from, to));
    } else {
        text::lemma_byte_slice_ends(body, from);
    }
}

proof fn lemma_segments_from_joined(body: Seq<char>, ranges: Seq<(usize, usize)>, from: int)
    requires
        url_match::ranges_in_order(body, ranges),
        text::is_byte_range(body, from, encode_utf8(body).len() as int),
        ranges.len() > 0 ==> from <= ranges[0].0,
    ensures
        joined(segments_from(body, ranges, from)) == text::byte_slice(
            body,
            from,
            encode_utf8(body).len() as int,
        ),
    decreases ranges.len(),
{
    let len = encode_utf8(body).len() as int;
    if ranges.len() == 0 {
        lemma_gap_segment_joined(body, from, len);
    } else {
        let (start, end) = ranges[0];
        let rest = ranges.drop_first();
        assert(text::is_byte_range(body, start as int, end as int));
        assert forall|i: int| 0 <= i < rest.len() implies text::is_byte_range(
            body,
            (#[trigger] rest[i]).0 as int,
            rest[i].1 as int,
        ) by {
            assert(rest[i] == ranges[i + 1]);
        }
        assert(url_match::ranges_in_order(body, rest));
        lemma_segments_from_joined(body, rest, end as int);
        let gap = gap_segment(body, from, start as int);
        let url = seq![SegmentView::Url(text::byte_slice(body, start as int, end as int))];
        lemma_gap_segment_joined(body, from, start as int);
        assert(joined(url) =~= text::byte_slice(body, start as int, end as int)) by {
            reveal_with_fuel(joined, 2);
        }
        lemma_joined_concat(gap, url);
        lemma_joined_concat(gap + url, segments_from(body, rest, end as int));
        text::lemma_byte_slices_join(body, from, start as int, end as int);
        text::lemma_byte_slices_join(body, from, end as int, len);
    }
}

/// Splitting loses nothing: the segments, put together, are the message.
pub proof fn segments_rejoin_to_body(body: Seq<char>, ranges: Seq<(usize, usize)>)
    requires
        url_match::ranges_in_order(body, ranges),
    ensures
        joined(segments_of(body, ranges)) == body,
{
    text::lemma_byte_slice_ends(body, 0);
    lemma_segments_from_joined(body, ranges, 0);
    if segments_from(body, ranges, 0).len() == 0 {
        let one = seq![SegmentView::Text(body)];
        assert(one.drop_first() =~= Seq::<SegmentView>::empty());
        reveal_with_fuel(joined, 2);
        assert(joined(one) =~= body);
    }
}

/// `body` is one address with nothing but white space around it.
pub open spec fn is_single_url(body: Seq<char>, ranges: Seq<(usize, usize)>) -> bool {
    &&& ranges.len() == 1
    &&& text::is_blank(text::byte_slice(body, 0, ranges[0].0 as int))
    &&& text::is_blank(text::byte_slice(body, ranges[0].1 as int, encode_utf8(body).len() as int))
}

/// Whether `body`, whose addresses are `ranges`, is one address and white space.
pub fn is_single_url_text(body: &str, ranges: &Vec<(usize, usize)>) -> (single: bool)
    requires
        url_match::ranges_in_order(body@, ranges@),
    ensures
        single == is_single_url(body@, ranges@),
{
    if ranges.len() != 1 {
        return false;
    }
    let (start, end) = ranges[0];
    proof {
        text::lemma_byte_slice_ends(body@, 0);
        assert(text::is_byte_range(body@, ranges@[0].0 as int, ranges@[0].1 as int));
    }
    let lead = text::slice_bytes(body, 0, start);
    let trail = text::slice_bytes(body, end, text::byte_len(body));
    text::is_blank_text(lead.as_str()) && text::is_blank_text(trail.as_str())
}

/// `body` is one address from its first character to its last.
pub open spec fn is_one_url(body: Seq<char>) -> bool {
    url_match::starts_url(body, 0) && url_match::url_end(body, 0) == body.len()
}

/// A text without white space at its ends that is one address and white space is that address.
proof fn lemma_single_url_is_whole(body: Seq<char>)
    requires
        encode_utf8(body).len() <= usize::MAX,
        body.len() > 0 ==> !text::is_white(body[0]) && !text::is_white(body.last()),
    ensures
        is_single_url(body, url_match::url_ranges(body)) == is_one_url(body),
{
    let ranges = url_match::url_ranges(body);
    let spans = url_match::url_spans(body, 0);
    let size = encode_utf8(body).len() as int;
    url_match::lemma_next_url(body, 0);
    if spans.len() > 0 {
        let (at, end) = spans[0];
        let len = body.len() as int;
        assert(body.take(0) =~= Seq::<char>::empty());
        assert(body.take(len) =~= body);
        url_match::lemma_range_holds_span(body, 0);
        url_match::lemma_byte_at(body, 0, at);
        url_match::lemma_byte_at(body, at, end);
        url_match::lemma_byte_at(body, end, len);
        assert(ranges[0] == (
            url_match::byte_at(body, at) as usize,
            url_match::byte_at(body, end) as usize,
        ));
        assert(text::byte_slice(body, 0, ranges[0].0 as int) == body.subrange(0, at));
        assert(text::byte_slice(body, ranges[0].1 as int, size) == body.subrange(end, len));
        if is_single_url(body, ranges) {
            if at > 0 {
                assert(body.subrange(0, at)[0] == body[0]);
            }
            if end < len {
                assert(body.subrange(end, len)[len - end - 1] == body.last());
            }
        }
        if is_one_url(body) {
            assert(at == 0);
            assert(url_match::next_url(body, len) is None);
            assert(url_match::url_spans(body, len) =~= Seq::empty());
            assert(spans =~= seq![(at, end)]);
        }
    }
}

/// Whether a message is one address, with white space at most around it.
pub fn is_url_only_message(body: &str) -> (only: bool)
    ensures
        only == is_one_url(text::trimmed(body@)),
{
    let trimmed = text::trim(body);
    let ranges = url_match::find_urls(trimmed.as_str());
    let _size = text::byte_len(trimmed.as_str());
    proof {
        text::lemma_trimmed_ends(body@);
        lemma_single_url_is_whole(trimmed@);
    }
    is_single_url_text(trimmed.as_str(), &ranges)
}

/// The address that the first of `ranges` marks in `body`.
pub open spec fn first_url(body: Seq<char>, ranges: Seq<(usize, usize)>) -> Option<Seq<char>> {
    if ranges.len() == 0 {
        None
    } else {
        Some(text::byte_slice(body, ranges[0].0 as int, ranges[0].1 as int))
    }
}

/// The first of the given addresses of `body`.
pub fn first_url_text(body: &str, ranges: &Vec<(usize, usize)>) -> (url: Option<String>)
    requires
        url_match::ranges_in_order(body@, ranges@),
    ensures
        text::opt_text(url) == first_url(body@, ranges@),
{
    if ranges.len() == 0 {
        return None;
    }
    let (start, end) = ranges[0];
    assert(text::is_byte_range(body@, ranges@[0].0 as int, ranges@[0].1 as int));
    Some(text::slice_bytes(body, start, end))
}

/// The first address in a message.
pub fn find_first_url(body: &str) -> (url: Option<String>)
    ensures
        text::opt_text(url) == first_url(body@, url_match::url_ranges(body@)),
        match url {
            Some(found) => exists|at: int|
                #![trigger url_match::starts_url(body@, at)]
                {
                    &&& url_match::starts_url(body@, at)
                    &&& forall|k: int| k < at ==> !#[trigger] url_match::starts_url(body@, k)
                    &&& found@ == body@.subrange(at, url_match::url_end(body@, at))
                },
            None => forall|at: int| !#[trigger] url_match::starts_url(body@, at),
        },
{
    let ranges = url_match::find_urls(body);
    let _size = text::byte_len(body);
    proof {
        first_url_is_leftmost(body@);
    }
    first_url_text(body, &ranges)
}

/// The first address of a text is what stands from the leftmost start of an address to the
/// first character behind its scheme that no address holds, or to the end.
pub proof fn first_url_is_leftmost(body: Seq<char>)
    requires
        encode_utf8(body).len() <= usize::MAX,
    ensures
        match url_match::next_url(body, 0) {
            Some(at) => {
                &&& url_match::starts_url(body, at)
                &&& forall|k: int| k < at ==> !#[trigger] url_match::starts_url(body, k)
                &&& first_url(body, url_match::url_ranges(body)) == Some(
                    body.subrange(at, url_match::url_end(body, at)),
                )
            },
            None => {
                &&& forall|k: int| !#[trigger] url_match::starts_url(body, k)
                &&& first_url(body, url_match::url_ranges(body)) is None
            },
        },
{
    url_match::lemma_next_url(body, 0);
    if url_match::next_url(body, 0) is Some {
        url_match::lemma_range_holds_span(body, 0);
    }
}

/// The first address among segments.
pub open spec fn first_url_segment(segments: Seq<SegmentView>) -> Option<Seq<char>>
    decreases segments.len(),
{
    if segments.len() == 0 {
        None
    } else {
        match segments[0] {
            SegmentView::Url(url) => Some(url),
            SegmentView::Text(_) => first_url_segment(segments.drop_first()),
        }
    }
}

/// The first address of a message is the first one among the segments it is split into.
pub proof fn first_url_is_first_segment(body: Seq<char>, ranges: Seq<(usize, usize)>)
    ensures
        first_url_segment(segments_of(body, ranges)) == first_url(body, ranges),
{
    reveal_with_fuel(first_url_segment, 3);
    let segments = segments_from(body, ranges, 0);
    if ranges.len() == 0 {
        assert(segments =~= gap_segment(body, 0, encode_utf8(body).len() as int));
        assert(segments_of(body, ranges).drop_first() =~= Seq::<SegmentView>::empty());
    } else {
        let (start, end) = ranges[0];
        let url = SegmentView::Url(text::byte_slice(body, start as int, end as int));
        if 0 < start {
            assert(segments[0] is Text);
            assert(segments.drop_first()[0] == url);
        } else {
            assert(segments[0] == url);
        }
    }
}

/// `url` is one of the first `n` addresses of `body`.
pub open spec fn is_url_among(
    body: Seq<char>,
    ranges: Seq<(usize, usize)>,
    n: int,
    url: Seq<char>,
) -> bool {
    exists|k: int|
        0 <= k < n && url == text::byte_slice(
            body,
            (#[trigger] ranges[k]).0 as int,
            ranges[k].1 as int,
        )
}

/// The texts stand in dictionary order and none occurs twice.
pub open spec fn strictly_sorted(list: Seq<String>) -> bool {
    forall|i: int, j: int|
        #![trigger list[i], list[j]]
        0 <= i < j < list.len() ==> text::text_before(list[i]@, list[j]@)
}

/// `url` is one of the texts.
pub open spec fn lists(list: Seq<String>, url: Seq<char>) -> bool {
    exists|i: int| 0 <= i < list.len() && (#[trigger] list[i])@ == url
}

/// Puts `url` at its place in a sorted list, unless it is there already.
fn insert_sorted(list: &mut Vec<String>, url: String)
    requires
        strictly_sorted(old(list)@),
    ensures
        strictly_sorted(final(list)@),
        forall|u: Seq<char>| #[trigger]
            lists(final(list)@, u) <==> (lists(old(list)@, u) || u == url@),
{
    let ghost before = list@;
    let mut at: usize = 0;
    while at < list.len() && text::comes_before(list[at].as_str(), url.as_str())
        invariant
            at <= list.len(),
            list@ == before,
            forall|k: int|
                0 <= k < at ==> text::text_before((#[trigger] before[k])@, url@),
        decreases list.len() - at,
    {
        at += 1;
    }
    if at < list.len() && text::same_text(list[at].as_str(), url.as_str()) {
        proof {
            assert(before[at as int]@ == url@);
            assert forall|u: Seq<char>| #[trigger]
                lists(list@, u) <==> (lists(before, u) || u == url@) by {}
        }
        return ;
    }
    let ghost added = url@;
    list.insert(at, url);
    proof {
        let after = list@;
        assert(after =~= before.insert(at as int, url));
        assert forall|i: int, j: int|
            #![trigger after[i], after[j]]
            0 <= i < j < after.len() implies text::text_before(after[i]@, after[j]@) by {
            let bi = if i < at { i } else { i - 1 };
            let bj = if j < at { j } else { j - 1 };
            if i == at {
                text::lemma_text_before_total(before[at as int]@, added);
                if bj > at {
                    assert(text::text_before(before[at as int]@, before[bj]@));
                    text::lemma_text_before_transitive(added, before[at as int]@, before[bj]@);
                }
            } else if j == at {
                assert(text::text_before(before[bi]@, added));
            } else {
                assert(text::text_before(before[bi]@, before[bj]@));
            }
        }
        assert forall|u: Seq<char>| #[trigger]
            lists(after, u) <==> (lists(before, u) || u == added) by {
            if lists(after, u) {
                let i = choose|i: int| 0 <= i < after.len() && (#[trigger] after[i])@ == u;
                if i < at {
                    assert(before[i]@ == u);
                } else if i > at {
                    assert(before[i - 1]@ == u);
                }
            }
            if lists(before, u) {
                let i = choose|i: int| 0 <= i < before.len() && (#[trigger] before[i])@ == u;
                if i < at {
                    assert(after[i]@ == u);
                } else {
                    assert(after[i + 1]@ == u);
                }
            }
            if u == added {
                assert(after[at as int]@ == u);
            }
        }
    }
}

/// The different addresses that `ranges` mark in `body`, sorted.
pub fn unique_urls(body: &str, ranges: &Vec<(usize, usize)>) -> (urls: Vec<String>)
    requires
        url_match::ranges_in_order(body@, ranges@),
    ensures
        strictly_sorted(urls@),
        forall|u: Seq<char>| #[trigger]
            lists(urls@, u) <==> is_url_among(body@, ranges@, ranges@.len() as int, u),
{
    let mut urls: Vec<String> = Vec::new();
    let mut i: usize = 0;
    while i < ranges.len()
        invariant
            i <= ranges.len(),
            url_match::ranges_in_order(body@, ranges@),
            strictly_sorted(urls@),
            forall|u: Seq<char>| #[trigger]
                lists(urls@, u) <==> is_url_among(body@, ranges@, i as int, u),
        decreases ranges.len() - i,
    {
        let (start, end) = ranges[i];
        assert(text::is_byte_range(
            body@,
            ranges@[i as int].0 as int,
            ranges@[i as int].1 as int,
        ));
        let url = text::slice_bytes(body, start, end);
        let ghost added = url@;
        let ghost before = urls@;
        insert_sorted(&mut urls, url);
        proof {
            assert forall|u: Seq<char>| #[trigger]
                lists(urls@, u) <==> is_url_among(body@, ranges@, i + 1, u) by {
                assert(lists(urls@, u) <==> (lists(before, u) || u == added));
                if u == added {
                    let r = ranges@[i as int];
                    assert(u == text::byte_slice(body@, r.0 as int, r.1 as int));
                }
                if is_url_among(body@, ranges@, i + 1, u) && u != added {
                    let k = choose|k: int|
                        0 <= k < i + 1 && u == text::byte_slice(
                            body@,
                            (#[trigger] ranges@[k]).0 as int,
                            ranges@[k].1 as int,
                        );
                    assert(k < i);
                    assert(is_url_among(body@, ranges@, i as int, u));
                }
                if is_url_among(body@, ranges@, i as int, u) {
                    let k = choose|k: int|
                        0 <= k < i && u == text::byte_slice(
                            body@,
                            (#[trigger] ranges@[k]).0 as int,
                            ranges@[k].1 as int,
                        );
                    assert(u == text::byte_slice(body@, ranges@[k].0 as int, ranges@[k].1 as int));
                }
            }
        }
        i += 1;
    }
    urls
}

/// `url` is one of the addresses of `body`.
pub open spec fn is_url_of(body: Seq<char>, url: Seq<char>) -> bool {
    exists|k: int|
        0 <= k < url_match::url_spans(body, 0).len() && url == body.subrange(
            (#[trigger] url_match::url_spans(body, 0)[k]).0,
            url_match::url_spans(body, 0)[k].1,
        )
}

/// The different addresses in a message, sorted.
pub fn find_all_urls(body: &str) -> (urls: Vec<String>)
    ensures
        strictly_sorted(urls@),
        forall|u: Seq<char>| #[trigger] lists(urls@, u) <==> is_url_of(body@, u),
{
    let ranges = url_match::find_urls(body);
    let _size = text::byte_len(body);
    let urls = unique_urls(body, &ranges);
    proof {
        let spans = url_match::url_spans(body@, 0);
        let n = ranges@.len() as int;
        assert(n == spans.len());
        assert forall|u: Seq<char>| #[trigger] lists(urls@, u) <==> is_url_of(body@, u) by {
            assert(lists(urls@, u) <==> is_url_among(body@, ranges@, n, u));
            if is_url_among(body@, ranges@, n, u) {
                let k = choose|k: int|
                    0 <= k < n && u == text::byte_slice(
                        body@,
                        (#[trigger] ranges@[k]).0 as int,
                        ranges@[k].1 as int,
                    );
                url_match::lemma_range_holds_span(body@, k);
                assert(u == body@.subrange(spans[k].0, spans[k].1));
            }
            if is_url_of(body@, u) {
                let k = choose|k: int|
                    0 <= k < spans.len() && u == body@.subrange(
                        (#[trigger] spans[k]).0,
                        spans[k].1,
                    );
                url_match::lemma_range_holds_span(body@, k);
                assert(u == text::byte_slice(
                    body@,
                    ranges@[k].0 as int,
                    ranges@[k].1 as int,
                ));
            }
        }
    }
    urls
}

/// The position of the first `/` in `bytes` at or after `from`.
pub open spec fn first_slash(bytes: Seq<u8>, from: int) -> Option<int>
    decreases bytes.len() - from,
{
    if from < 0 || from >= bytes.len() {
        None
    } else if bytes[from] == 47 {
        Some(from)
    } else {
        first_slash(bytes, from + 1)
    }
}

/// How a long address is shortened for display.
pub enum Shortening {
    /// The address fits as it is.
    Whole,
    /// Scheme and host up to byte `host_end`, then `/..`, then the path up to byte `cut`.
    HostAndPath { host_end: usize, cut: usize },
    /// The bytes before `cut`, then two dots.
    TwoDots { cut: usize },
    /// The bytes before `cut`, then three dots.
    ThreeDots { cut: usize },
}

/// `a - b`, or zero where that is negative.
pub open spec fn saturating_difference(a: int, b: int) -> int {
    if a >= b {
        a - b
    } else {
        0
    }
}

/// Where an address with a scheme of `scheme_len` bytes is cut.
pub open spec fn web_shortening(bytes: Seq<u8>, scheme_len: int, max_len: usize) -> Shortening {
    match first_slash(bytes, scheme_len) {
        Some(slash) => Shortening::HostAndPath {
            host_end: slash as usize,
            cut: (slash + saturating_difference(max_len as int, slash + 3)) as usize,
        },
        None => Shortening::TwoDots { cut: saturating_difference(max_len as int, 4) as usize },
    }
}

/// Where `url` is cut so that it takes about `max_len` bytes.
pub open spec fn shortening_of(url: Seq<char>, max_len: usize) -> Shortening {
    let bytes = encode_utf8(url);
    if bytes.len() <= max_len {
        Shortening::Whole
    } else if text::has_prefix(url, "https://"@) {
        web_shortening(bytes, 8, max_len)
    } else if text::has_prefix(url, "http://"@) {
        web_shortening(bytes, 7, max_len)
    } else {
        Shortening::ThreeDots { cut: saturating_difference(max_len as int, 3) as usize }
    }
}

/// The byte after which nothing of the address itself is kept.
pub open spec fn cut_of(url: Seq<char>, s: Shortening) -> int {
    match s {
        Shortening::Whole => encode_utf8(url).len() as int,
        Shortening::HostAndPath { cut, .. } => cut as int,
        Shortening::TwoDots { cut } => cut as int,
        Shortening::ThreeDots { cut } => cut as int,
    }
}

/// `url` shortened as `s` says.
pub open spec fn shortened(url: Seq<char>, s: Shortening) -> Seq<char> {
    match s {
        Shortening::Whole => url,
        Shortening::HostAndPath { host_end, cut } => text::byte_slice(url, 0, host_end as int)
            + "/.."@ + text::byte_slice(url, host_end as int, cut as int),
        Shortening::TwoDots { cut } => text::byte_slice(url, 0, cut as int) + ".."@,
        Shortening::ThreeDots { cut } => text::byte_slice(url, 0, cut as int) + "..."@,
    }
}

/// The position of the first `/` at or after byte `from`.
fn find_slash(url: &str, from: usize) -> (slash: Option<usize>)
    ensures
        match slash {
            Some(at) => first_slash(encode_utf8(url@), from as int) == Some(at as int),
            None => first_slash(encode_utf8(url@), from as int) is None,
        },
        slash is Some ==> from <= slash->0 < encode_utf8(url@).len(),
        slash is Some ==> encode_utf8(url@)[slash->0 as int] == 47,
{
    let bytes = url.as_bytes();
    let mut at: usize = from;
    while at < bytes.len()
        invariant
            from <= at,
            bytes@ == encode_utf8(url@),
            first_slash(bytes@, from as int) == first_slash(bytes@, at as int),
        decreases bytes.len() - at,
    {
        if bytes[at] == 47 {
            return Some(at);
        }
        at += 1;
    }
    None
}

/// Where an address with a scheme of `scheme_len` bytes is cut.
fn shorten_web(url: &str, scheme_len: usize, max_len: usize) -> (s: Shortening)
    requires
        max_len < encode_utf8(url@).len(),
    ensures
        s == web_shortening(encode_utf8(url@), scheme_len as int, max_len),
        cut_of(url@, s) <= encode_utf8(url@).len(),
{
    match find_slash(url, scheme_len) {
        Some(slash) => {
            // The path starts at `slash`, so at least one byte of it is left behind.
            let available: usize = if max_len >= 3 && max_len - 3 >= slash {
                max_len - 3 - slash
            } else {
                0
            };
            Shortening::HostAndPath { host_end: slash, cut: slash + available }
        },
        None => Shortening::TwoDots { cut: max_len.saturating_sub(4) },
    }
}

/// Where an address is cut so that it takes about `max_len` bytes.
pub fn plan_shortening(url: &str, max_len: usize) -> (s: Shortening)
    ensures
        s == shortening_of(url@, max_len),
        cut_of(url@, s) <= encode_utf8(url@).len(),
{
    if text::byte_len(url) <= max_len {
        Shortening::Whole
    } else if text::starts_with(url, "https://") {
        shorten_web(url, 8, max_len)
    } else if text::starts_with(url, "http://") {
        shorten_web(url, 7, max_len)
    } else {
        Shortening::ThreeDots { cut: max_len.saturating_sub(3) }
    }
}

/// Whether the cut that `max_len` asks for falls between two characters.
pub fn can_truncate_url(url: &str, max_len: usize) -> (can: bool)
    ensures
        can == is_char_boundary(encode_utf8(url@), cut_of(url@, shortening_of(url@, max_len))),
{
    proof {
        encode_utf8_valid_utf8(url@);
        is_char_boundary_start_end_of_seq(encode_utf8(url@));
    }
    match plan_shortening(url, max_len) {
        Shortening::Whole => true,
        Shortening::HostAndPath { cut, .. } => url.is_char_boundary(cut),
        Shortening::TwoDots { cut } => url.is_char_boundary(cut),
        Shortening::ThreeDots { cut } => url.is_char_boundary(cut),
    }
}

proof fn lemma_first_slash_found(bytes: Seq<u8>, from: int)
    ensures
        first_slash(bytes, from) is Some ==> from <= first_slash(bytes, from)->0 < bytes.len()
            && bytes[first_slash(bytes, from)->0] == 47 && 0 <= from,
    decreases bytes.len() - from,
{
    if 0 <= from < bytes.len() && bytes[from] != 47 {
        lemma_first_slash_found(bytes, from + 1);
    }
}

/// Shortens an address for display, keeping scheme, host and the start of the path.
///
/// The cut must fall between two characters; [`can_truncate_url`] tells whether it does.
pub fn truncate_url(url: &str, max_len: usize) -> (shown: String)
    requires
        is_char_boundary(encode_utf8(url@), cut_of(url@, shortening_of(url@, max_len))),
    ensures
        shown@ == shortened(url@, shortening_of(url@, max_len)),
{
    let plan = plan_shortening(url, max_len);
    proof {
        encode_utf8_valid_utf8(url@);
        is_char_boundary_start_end_of_seq(encode_utf8(url@));
    }
    match plan {
        Shortening::Whole => url.to_owned(),
        Shortening::HostAndPath { host_end, cut } => {
            proof {
                let bytes = encode_utf8(url@);
                lemma_first_slash_found(bytes, 8);
                lemma_first_slash_found(bytes, 7);
                is_char_boundary_iff_not_is_continuation_byte(bytes, host_end as int);
            }
            let mut shown = text::slice_bytes(url, 0, host_end);
            shown.append("/..");
            let path = text::slice_bytes(url, host_end, cut);
            shown.append(path.as_str());
            shown
        },
        Shortening::TwoDots { cut } => {
            let mut shown = text::slice_bytes(url, 0, cut);
            shown.append("..");
            shown
        },
        Shortening::ThreeDots { cut } => {
            let mut shown = text::slice_bytes(url, 0, cut);
            shown.append("...");
            shown
        },
    }
}

/// `max_len` has room for what the shortening adds to the address.
pub open spec fn has_room(url: Seq<char>, max_len: usize) -> bool {
    match shortening_of(url, max_len) {
        Shortening::Whole => true,
        Shortening::HostAndPath { host_end, .. } => host_end + 3 <= max_len,
        Shortening::TwoDots { .. } => 2 <= max_len,
        Shortening::ThreeDots { .. } => 3 <= max_len,
    }
}

/// A shortened address takes at most `max_len` bytes wherever `max_len` has room for what the
/// shortening adds.
pub proof fn shortened_url_fits(url: Seq<char>, max_len: usize)
    requires
        is_char_boundary(encode_utf8(url), cut_of(url, shortening_of(url, max_len))),
        has_room(url, max_len),
    ensures
        encode_utf8(shortened(url, shortening_of(url, max_len))).len() <= max_len,
{
    let bytes = encode_utf8(url);
    encode_utf8_valid_utf8(url);
    is_char_boundary_start_end_of_seq(bytes);
    lemma_first_slash_found(bytes, 8);
    lemma_first_slash_found(bytes, 7);
    reveal_strlit("/..");
    reveal_strlit("..");
    reveal_strlit("...");
    match shortening_of(url, max_len) {
        Shortening::Whole => {},
        Shortening::HostAndPath { host_end, cut } => {
            is_char_boundary_iff_not_is_continuation_byte(bytes, host_end as int);
            let host = text::byte_slice(url, 0, host_end as int);
            let path = text::byte_slice(url, host_end as int, cut as int);
            text::lemma_byte_slice_len(url, 0, host_end as int);
            text::lemma_byte_slice_len(url, host_end as int, cut as int);
            is_ascii_chars_encode_utf8("/.."@);
            text::lemma_encode_concat(host, "/.."@);
            text::lemma_encode_concat(host + "/.."@, path);
        },
        Shortening::TwoDots { cut } => {
            text::lemma_byte_slice_len(url, 0, cut as int);
            is_ascii_chars_encode_utf8(".."@);
            text::lemma_encode_concat(text::byte_slice(url, 0, cut as int), ".."@);
        },
        Shortening::ThreeDots { cut } => {
            text::lemma_byte_slice_len(url, 0, cut as int);
            is_ascii_chars_encode_utf8("..."@);
            text::lemma_encode_concat(text::byte_slice(url, 0, cut as int), "..."@);
        },
    }
}

/// The addresses among segments, in order.
pub open spec fn urls_among(segments: Seq<SegmentView>) -> Seq<Seq<char>>
    decreases segments.len(),
{
    if segments.len() == 0 {
        Seq::empty()
    } else {
        match segments[0] {
            SegmentView::Url(url) => seq![url] + urls_among(segments.drop_first()),
            SegmentView::Text(_) => urls_among(segments.drop_first()),
        }
    }
}

/// The addresses that ranges mark, in order.
pub open spec fn marked(body: Seq<char>, ranges: Seq<(usize, usize)>) -> Seq<Seq<char>> {
    ranges.map_values(|r: (usize, usize)| text::byte_slice(body, r.0 as int, r.1 as int))
}

proof fn lemma_urls_concat(a: Seq<SegmentView>, b: Seq<SegmentView>)
    ensures
        urls_among(a + b) == urls_among(a) + urls_among(b),
    decreases a.len(),
{
    if a.len() == 0 {
        assert(a + b =~= b);
        assert(urls_among(a) + urls_among(b) =~= urls_among(b));
    } else {
        lemma_urls_concat(a.drop_first(), b);
        assert((a + b).drop_first() =~= a.drop_first() + b);
        assert(urls_among(a + b) =~= urls_among(a) + urls_among(b));
    }
}

proof fn lemma_urls_from(body: Seq<char>, ranges: Seq<(usize, usize)>, from: int)
    ensures
        urls_among(segments_from(body, ranges, from)) == marked(body, ranges),
    decreases ranges.len(),
{
    reveal_with_fuel(urls_among, 3);
    if ranges.len() == 0 {
        let gap = gap_segment(body, from, encode_utf8(body).len() as int);
        assert(gap.len() > 0 ==> gap.drop_first() =~= Seq::<SegmentView>::empty());
        assert(urls_among(gap) =~= Seq::<Seq<char>>::empty());
        assert(marked(body, ranges) =~= Seq::<Seq<char>>::empty());
    } else {
        let (start, end) = ranges[0];
        let gap = gap_segment(body, from, start as int);
        let url = seq![SegmentView::Url(text::byte_slice(body, start as int, end as int))];
        let rest = segments_from(body, ranges.drop_first(), end as int);
        lemma_urls_from(body, ranges.drop_first(), end as int);
        lemma_urls_concat(gap, url);
        lemma_urls_concat(gap + url, rest);
        assert(gap.len() > 0 ==> gap.drop_first() =~= Seq::<SegmentView>::empty());
        assert(urls_among(gap) =~= Seq::<Seq<char>>::empty());
        assert(url.drop_first() =~= Seq::<SegmentView>::empty());
        assert(urls_among(url) =~= seq![text::byte_slice(body, start as int, end as int)]);
        assert(marked(body, ranges) =~= seq![text::byte_slice(body, start as int, end as int)]
            + marked(body, ranges.drop_first()));
        assert(urls_among(segments_from(body, ranges, from)) =~= marked(body, ranges));
    }
}

/// The segments that are addresses are just the addresses of the message, in order.
pub proof fn address_segments_are_the_addresses(body: Seq<char>, ranges: Seq<(usize, usize)>)
    ensures
        urls_among(segments_of(body, ranges)) == marked(body, ranges),
{
    lemma_urls_from(body, ranges, 0);
    if segments_from(body, ranges, 0).len() == 0 {
        reveal_with_fuel(urls_among, 2);
        let one = seq![SegmentView::Text(body)];
        assert(one.drop_first() =~= Seq::<SegmentView>::empty());
        assert(urls_among(segments_from(body, ranges, 0)) =~= Seq::<Seq<char>>::empty());
        assert(urls_among(one) =~= Seq::<Seq<char>>::empty());
    }
}

/// No two neighbouring segments are both text.
pub open spec fn texts_stand_apart(segments: Seq<SegmentView>) -> bool {
    forall|i: int|
        0 <= i < segments.len() - 1 ==> !(#[trigger] segments[i] is Text && segments[i + 1] is Text)
}

/// No segment is an empty text.
pub open spec fn no_text_is_empty(segments: Seq<SegmentView>) -> bool {
    forall|i: int|
        0 <= i < segments.len() && #[trigger] segments[i] is Text ==> segments[i].chars().len() > 0
}

proof fn lemma_texts_from(body: Seq<char>, ranges: Seq<(usize, usize)>, from: int)
    requires
        url_match::ranges_in_order(body, ranges),
        text::is_byte_range(body, from, encode_utf8(body).len() as int),
        ranges.len() > 0 ==> from <= ranges[0].0,
    ensures
        texts_stand_apart(segments_from(body, ranges, from)),
        no_text_is_empty(segments_from(body, ranges, from)),
    decreases ranges.len(),
{
    let len = encode_utf8(body).len() as int;
    if ranges.len() == 0 {
        text::lemma_byte_slice_len(body, from, len);
        if from < len {
            let slice = text::byte_slice(body, from, len);
            if slice.len() == 0 {
                assert(slice =~= Seq::<char>::empty());
                assert(encode_utf8(slice).len() == 0);
            }
        }
    } else {
        let (start, end) = ranges[0];
        let rest = ranges.drop_first();
        assert(text::is_byte_range(body, start as int, end as int));
        assert forall|i: int| 0 <= i < rest.len() implies text::is_byte_range(
            body,
            (#[trigger] rest[i]).0 as int,
            rest[i].1 as int,
        ) by {
            assert(rest[i] == ranges[i + 1]);
        }
        assert(url_match::ranges_in_order(body, rest));
        lemma_texts_from(body, rest, end as int);
        let gap = gap_segment(body, from, start as int);
        text::lemma_byte_slice_len(body, from, start as int);
        if from < start {
            let slice = text::byte_slice(body, from, start as int);
            if slice.len() == 0 {
                assert(slice =~= Seq::<char>::empty());
                assert(encode_utf8(slice).len() == 0);
            }
        }
        let url = seq![SegmentView::Url(text::byte_slice(body, start as int, end as int))];
        let tail = segments_from(body, rest, end as int);
        let all = segments_from(body, ranges, from);
        assert(all == gap + url + tail);
        let n = gap.len() as int;
        assert(all[n] is Url);
        assert forall|i: int| 0 <= i < all.len() - 1 implies !(#[trigger] all[i] is Text && all[i
            + 1] is Text) by {
            if i > n {
                assert(all[i] == tail[i - n - 1]);
                assert(all[i + 1] == tail[i - n]);
            }
        }
        assert forall|i: int| 0 <= i < all.len() && #[trigger] all[i] is Text implies all[i].chars(
        ).len() > 0 by {
            if i > n {
                assert(all[i] == tail[i - n - 1]);
            }
        }
    }
}

/// Text is not cut into more segments than needed, and none of them is empty but where the
/// message is.
pub proof fn texts_are_whole(body: Seq<char>, ranges: Seq<(usize, usize)>)
    requires
        url_match::ranges_in_order(body, ranges),
    ensures
        texts_stand_apart(segments_of(body, ranges)),
        body.len() > 0 ==> no_text_is_empty(segments_of(body, ranges)),
        body.len() == 0 && ranges.len() == 0 ==> segments_of(body, ranges) == seq![
            SegmentView::Text(body),
        ],
{
    text::lemma_byte_slice_ends(body, 0);
    lemma_texts_from(body, ranges, 0);
    if body.len() == 0 && ranges.len() == 0 {
        assert(encode_utf8(body).len() == 0);
        assert(segments_from(body, ranges, 0).len() == 0);
    }
}

/// An address that fits is shown whole. A longer one of the web keeps its scheme and its host,
/// and behind two dots as much of its path as there is room for; one without a path, and one of
/// another kind, keeps its start, and dots show that it goes on.
pub proof fn long_addresses_keep_their_host(url: Seq<char>, max_len: usize, scheme: int, host: int)
    requires
        encode_utf8(url).len() <= usize::MAX,
    ensures
        ({
            let bytes = encode_utf8(url);
            let shown = shortened(url, shortening_of(url, max_len));
            let web = text::has_prefix(url, "https://"@) && scheme == 8 || text::has_prefix(
                url,
                "http://"@,
            ) && scheme == 7;
            let pathless = forall|k: int|
                scheme <= k < bytes.len() ==> #[trigger] bytes[k] != 47;
            let room = if max_len >= host + 3 {
                max_len - host - 3
            } else {
                0
            };
            &&& bytes.len() <= max_len ==> shown == url
            &&& bytes.len() > max_len && web && scheme <= host < bytes.len() && bytes[host] == 47
                && (forall|k: int| scheme <= k < host ==> #[trigger] bytes[k] != 47) ==> shown
                == text::byte_slice(url, 0, host) + "/.."@ + text::byte_slice(
                url,
                host,
                host + room,
            )
            &&& bytes.len() > max_len && web && pathless ==> shown == text::byte_slice(
                url,
                0,
                if max_len >= 4 {
                    max_len - 4
                } else {
                    0
                },
            ) + ".."@
            &&& bytes.len() > max_len && !text::has_prefix(url, "https://"@) && !text::has_prefix(
                url,
                "http://"@,
            ) ==> shown == text::byte_slice(
                url,
                0,
                if max_len >= 3 {
                    max_len - 3
                } else {
                    0
                },
            ) + "..."@
        }),
{
    reveal_strlit("https://");
    reveal_strlit("http://");
    assert("http://"@[4] == ':' && "https://"@[4] == 's');
    if text::has_prefix(url, "https://"@) && text::has_prefix(url, "http://"@) {
        assert(url.subrange(0, 8)[4] == url[4]);
        assert(url.subrange(0, 7)[4] == url[4]);
    }
    let bytes = encode_utf8(url);
    if scheme == 7 || scheme == 8 {
        lemma_slash_is_first(bytes, scheme, host);
        lemma_no_slash(bytes, scheme);
    }
}

proof fn lemma_slash_is_first(bytes: Seq<u8>, from: int, at: int)
    requires
        0 <= from,
    ensures
        from <= at < bytes.len() && bytes[at] == 47 && (forall|k: int|
            from <= k < at ==> #[trigger] bytes[k] != 47) ==> first_slash(bytes, from) == Some(at),
    decreases at - from,
{
    if from < at < bytes.len() && bytes[at] == 47 && (forall|k: int|
        from <= k < at ==> #[trigger] bytes[k] != 47) {
        assert(bytes[from] != 47);
        lemma_slash_is_first(bytes, from + 1, at);
    }
}

proof fn lemma_no_slash(bytes: Seq<u8>, from: int)
    requires
        0 <= from,
    ensures
        (forall|k: int| from <= k < bytes.len() ==> #[trigger] bytes[k] != 47) ==> first_slash(
            bytes,
            from,
        ) is None,
    decreases bytes.len() - from,
{
    if from < bytes.len() && (forall|k: int| from <= k < bytes.len() ==> #[trigger] bytes[k] != 47) {
        assert(bytes[from] != 47);
        lemma_no_slash(bytes, from + 1);
    }
}

/// A message is split at its addresses, the first of which is its first address, and it is
/// nothing but an address where that is all of it, trimmed.
pub proof fn messages_are_read_for_addresses(
    body: &str,
    segments: Vec<TextSegment>,
    first: Option<String>,
    only: bool,
)
    requires
        call_ensures(parse_url_segments, (body,), segments),
        call_ensures(find_first_url, (body,), first),
        call_ensures(is_url_only_message, (body,), only),
    ensures
        joined(segment_views(segments@)) == body@,
        urls_among(segment_views(segments@)) == marked(body@, url_match::url_ranges(body@)),
        first_url_segment(segment_views(segments@)) == text::opt_text(first),
        only ==> url_match::starts_url(text::trimmed(body@), 0) && url_match::url_end(
            text::trimmed(body@),
            0,
        ) == text::trimmed(body@).len(),
        !only ==> !(url_match::starts_url(text::trimmed(body@), 0) && url_match::url_end(
            text::trimmed(body@),
            0,
        ) == text::trimmed(body@).len()),
{
    address_segments_are_the_addresses(body@, url_match::url_ranges(body@));
    first_url_is_first_segment(body@, url_match::url_ranges(body@));
}

/// What is shown of an address is its shortened form.
pub proof fn addresses_are_shown_shortened(url: &str, max_len: usize, shown: String, can: bool)
    requires
        call_ensures(truncate_url, (url, max_len), shown),
        call_ensures(can_truncate_url, (url, max_len), can),
    ensures
        shown@ == shortened(url@, shortening_of(url@, max_len)),
        can == is_char_boundary(encode_utf8(url@), cut_of(url@, shortening_of(url@, max_len))),
        encode_utf8(url@).len() <= max_len ==> shown@ == url@,
{
}

/// All addresses are listed, and nothing else, in dictionary order and each once.
pub proof fn all_addresses_are_listed(body: &str, urls: Vec<String>, i: int, j: int, k: int)
    requires
        call_ensures(find_all_urls, (body,), urls),
        encode_utf8(body@).len() <= usize::MAX,
    ensures
        0 <= i < j < urls@.len() ==> text::text_before(urls@[i]@, urls@[j]@),
        0 <= i < urls@.len() ==> marked(body@, url_match::url_ranges(body@)).contains(urls@[i]@),
        0 <= k < url_match::url_ranges(body@).len() ==> lists(
            urls@,
            marked(body@, url_match::url_ranges(body@))[k],
        ),
{
    let ranges = url_match::url_ranges(body@);
    let spans = url_match::url_spans(body@, 0);
    let all = marked(body@, ranges);
    if 0 <= i < urls@.len() {
        assert(lists(urls@, urls@[i]@));
        let n = choose|n: int|
            0 <= n < spans.len() && urls@[i]@ == body@.subrange((#[trigger] spans[n]).0, spans[n].1);
        url_match::lemma_range_holds_span(body@, n);
        assert(all[n] == urls@[i]@);
    }
    if 0 <= k < ranges.len() {
        url_match::lemma_range_holds_span(body@, k);
        assert(all[k] == body@.subrange(spans[k].0, spans[k].1));
        assert(is_url_of(body@, all[k]));
    }
}

} // verus!
