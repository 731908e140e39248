//! Where web addresses stand in a text.

use vstd::prelude::*;
use vstd::utf8::*;

use crate::text;

verus! {

/// Matches `http://` and `https://` addresses.
pub const URL_PATTERN: &'static str = "(?:(?:https?)://)[^\\s<>\"`{}|\\[\\]\\\\^]+";

/// `c` may stand in an address behind its scheme.
pub open spec fn is_url_char(c: char) -> bool {
    !text::is_white(c) && c != '<' && c != '>' && c != '"' && c != '`' && c != '{' && c != '}'
        && c != '|' && c != '[' && c != ']' && c != '\\' && c != '^'
}

/// The length of the scheme that stands in `s` at `at`, with its colon and slashes; zero where
/// there is none.
pub open spec fn scheme_len(s: Seq<char>, at: int) -> int {
    if text::occurs_at(s, "https://"@, at) {
        8
    } else if text::occurs_at(s, "http://"@, at) {
        7
    } else {
        0
    }
}

/// An address starts in `s` at `at`: a scheme and at least one character behind it.
pub open spec fn starts_url(s: Seq<char>, at: int) -> bool {
    &&& scheme_len(s, at) > 0
    &&& at + scheme_len(s, at) < s.len()
    &&& is_url_char(s[at + scheme_len(s, at)])
}

/// The first position of `s` from `from` on that holds no character of an address, or the end.
pub open spec fn run_end(s: Seq<char>, from: int) -> int
    decreases s.len() - from,
{
    if from >= s.len() {
        s.len() as int
    } else if !is_url_char(s[from]) {
        from
    } else {
        run_end(s, from + 1)
    }
}

/// Where the address that starts at `at` ends.
pub open spec fn url_end(s: Seq<char>, at: int) -> int {
    run_end(s, at + scheme_len(s, at))
}

/// The first position of `s` from `from` on at which an address starts.
pub open spec fn next_url(s: Seq<char>, from: int) -> Option<int>
    decreases s.len() - from,
{
    if from >= s.len() {
        None
    } else if starts_url(s, from) {
        Some(from)
    } else {
        next_url(s, from + 1)
    }
}

/// The addresses in `s` from `from` on, each from its first position to the one behind its last;
/// the search for the next goes on where an address ends.
pub open spec fn url_spans(s: Seq<char>, from: int) -> Seq<(int, int)>
    decreases s.len() - from,
{
    proof {
        lemma_next_url(s, from);
    }
    match next_url(s, from) {
        None => Seq::empty(),
        Some(at) => seq![(at, url_end(s, at))] + url_spans(s, url_end(s, at)),
    }
}

/// The number of bytes that the first `n` characters of `s` take.
pub open spec fn byte_at(s: Seq<char>, n: int) -> int {
    encode_utf8(s.take(n)).len() as int
}

/// The addresses in `s` as ranges of bytes.
pub open spec fn url_ranges(s: Seq<char>) -> Seq<(usize, usize)> {
    url_spans(s, 0).map_values(
        |span: (int, int)| (byte_at(s, span.0) as usize, byte_at(s, span.1) as usize),
    )
}

/// The ranges cut `text` between characters, in order and without overlap.
pub open spec fn ranges_in_order(text: Seq<char>, ranges: Seq<(usize, usize)>) -> bool {
    &&& forall|i: int|
        0 <= i < ranges.len() ==> text::is_byte_range(
            text,
            (#[trigger] ranges[i]).0 as int,
            ranges[i].1 as int,
        )
    &&& forall|i: int, j: int|
        #![trigger ranges[i], ranges[j]]
        0 <= i < j < ranges.len() ==> ranges[i].1 <= ranges[j].0
}

/// `regex::Regex::new` and `Regex::find_iter` on [`URL_PATTERN`]: the byte offsets of the
/// successive matches.
///
/// The pattern is a regular expression, so the result is there. A match starts at the leftmost
/// position at or behind the end of the one before it where a scheme and one more character of
/// an address stand, and it takes all characters of an address that follow.
#[verifier::external_body]
fn find_iter(pattern: &str, text: &str) -> (found: Option<Vec<(usize, usize)>>)
    requires
        pattern@ == URL_PATTERN@,
    ensures
        found is Some,
        found->0@ == url_ranges(text@),
{
    let regex = regex::Regex::new(pattern).ok()?;
    Some(regex.find_iter(text).map(|m| (m.start(), m.end())).collect())
}

/// The ranges of bytes at which addresses stand in `text`.
pub fn find_urls(text: &str) -> (ranges: Vec<(usize, usize)>)
    ensures
        ranges@ == url_ranges(text@),
        ranges_in_order(text@, ranges@),
{
    let _size = text::byte_len(text);
    proof {
        lemma_ranges_in_order(text@);
    }
    match find_iter(URL_PATTERN, text) {
        Some(ranges) => ranges,
        None => Vec::new(),
    }
}

/// A run of characters of an address ends at the first other character, or with the text.
proof fn lemma_run_end(s: Seq<char>, from: int)
    requires
        0 <= from <= s.len(),
    ensures
        from <= run_end(s, from) <= s.len(),
        forall|k: int| from <= k < run_end(s, from) ==> is_url_char(#[trigger] s[k]),
        run_end(s, from) < s.len() ==> !is_url_char(s[run_end(s, from)]),
    decreases s.len() - from,
{
    if from < s.len() && is_url_char(s[from]) {
        lemma_run_end(s, from + 1);
    }
}

/// What is found is the first start of an address, and the address is not empty.
pub proof fn lemma_next_url(s: Seq<char>, from: int)
    ensures
        match next_url(s, from) {
            Some(at) => {
                &&& 0 <= at && from <= at < url_end(s, at) <= s.len()
                &&& starts_url(s, at)
                &&& forall|k: int| from <= k < at ==> !#[trigger] starts_url(s, k)
            },
            None => forall|k: int| from <= k ==> !#[trigger] starts_url(s, k),
        },
    decreases s.len() - from,
{
    if from < s.len() {
        if starts_url(s, from) {
            lemma_run_end(s, from + scheme_len(s, from));
        } else {
            lemma_next_url(s, from + 1);
        }
    }
}

/// The addresses stand in order behind `from`, without overlap.
proof fn lemma_spans(s: Seq<char>, from: int)
    requires
        0 <= from,
    ensures
        forall|i: int|
            0 <= i < url_spans(s, from).len() ==> from <= (#[trigger] url_spans(s, from)[i]).0
                < url_spans(s, from)[i].1 <= s.len(),
        forall|i: int, j: int|
            #![trigger url_spans(s, from)[i], url_spans(s, from)[j]]
            0 <= i < j < url_spans(s, from).len() ==> url_spans(s, from)[i].1
                <= url_spans(s, from)[j].0,
    decreases s.len() - from,
{
    lemma_next_url(s, from);
    match next_url(s, from) {
        None => {},
        Some(at) => {
            let spans = url_spans(s, from);
            let end = url_end(s, at);
            let rest = url_spans(s, end);
            lemma_spans(s, end);
            assert forall|i: int| 0 <= i < spans.len() implies from <= (#[trigger] spans[i]).0
                < spans[i].1 <= s.len() by {
                if i > 0 {
                    assert(spans[i] == rest[i - 1]);
                }
            }
            assert forall|i: int, j: int|
                #![trigger spans[i], spans[j]]
                0 <= i < j < spans.len() implies spans[i].1 <= spans[j].0 by {
                assert(spans[j] == rest[j - 1]);
                if i > 0 {
                    assert(spans[i] == rest[i - 1]);
                }
            }
        },
    }
}

/// Positions of characters stand between the bytes of one character and the next, and the bytes
/// between two of them hold the characters between them.
pub proof fn lemma_byte_at(s: Seq<char>, from: int, to: int)
    requires
        0 <= from <= to <= s.len(),
    ensures
        text::is_byte_range(s, byte_at(s, from), byte_at(s, to)),
        text::byte_slice(s, byte_at(s, from), byte_at(s, to)) == s.subrange(from, to),
{
    lemma_boundary_at(s, from);
    lemma_boundary_at(s, to);
    let head = s.take(from);
    let part = s.subrange(from, to);
    let tail = s.skip(to);
    assert(s.take(to) =~= head + part);
    assert(s =~= (head + part) + tail);
    text::lemma_encode_concat(head, part);
    text::lemma_encode_concat(head + part, tail);
    assert(encode_utf8(s).subrange(byte_at(s, from), byte_at(s, to)) =~= encode_utf8(part));
    encode_utf8_decode_utf8(part);
}

/// The position of a character stands between two characters.
proof fn lemma_boundary_at(s: Seq<char>, at: int)
    requires
        0 <= at <= s.len(),
    ensures
        0 <= byte_at(s, at) <= encode_utf8(s).len(),
        is_char_boundary(encode_utf8(s), byte_at(s, at)),
{
    let bytes = encode_utf8(s);
    let rest = encode_utf8(s.skip(at));
    assert(s =~= s.take(at) + s.skip(at));
    text::lemma_encode_concat(s.take(at), s.skip(at));
    encode_utf8_valid_utf8(s);
    encode_utf8_valid_utf8(s.skip(at));
    is_char_boundary_start_end_of_seq(bytes);
    is_char_boundary_start_end_of_seq(rest);
    if rest.len() > 0 {
        assert(bytes[byte_at(s, at)] == rest[0]);
        is_char_boundary_iff_not_is_continuation_byte(rest, 0);
        is_char_boundary_iff_not_is_continuation_byte(bytes, byte_at(s, at));
    }
}

/// The ranges of the addresses cut the text between characters, in order and without overlap.
pub proof fn lemma_ranges_in_order(s: Seq<char>)
    requires
        encode_utf8(s).len() <= usize::MAX,
    ensures
        ranges_in_order(s, url_ranges(s)),
{
    let spans = url_spans(s, 0);
    let ranges = url_ranges(s);
    lemma_spans(s, 0);
    assert forall|i: int| 0 <= i < ranges.len() implies text::is_byte_range(
        s,
        (#[trigger] ranges[i]).0 as int,
        ranges[i].1 as int,
    ) by {
        assert(0 <= spans[i].0 < spans[i].1 <= s.len());
        lemma_byte_at(s, spans[i].0, spans[i].1);
    }
    assert forall|i: int, j: int|
        #![trigger ranges[i], ranges[j]]
        0 <= i < j < ranges.len() implies ranges[i].1 <= ranges[j].0 by {
        assert(spans[i].1 <= spans[j].0);
        assert(0 <= spans[i].0 < spans[i].1 <= s.len());
        assert(0 <= spans[j].0 < spans[j].1 <= s.len());
        lemma_byte_at(s, spans[i].1, spans[j].0);
    }
}

/// What the ranges of the addresses hold is what stands between their first and last positions.
pub proof fn lemma_range_holds_span(s: Seq<char>, i: int)
    requires
        encode_utf8(s).len() <= usize::MAX,
        0 <= i < url_spans(s, 0).len(),
    ensures
        url_ranges(s).len() == url_spans(s, 0).len(),
        0 <= url_spans(s, 0)[i].0 < url_spans(s, 0)[i].1 <= s.len(),
        text::byte_slice(s, url_ranges(s)[i].0 as int, url_ranges(s)[i].1 as int) == s.subrange(
            url_spans(s, 0)[i].0,
            url_spans(s, 0)[i].1,
        ),
{
    let span = url_spans(s, 0)[i];
    lemma_spans(s, 0);
    lemma_byte_at(s, span.0, span.1);
}

/// An address holds no white space, and none of these characters, told by their code points: the
/// double quote, angle brackets, square brackets, the backslash, the circumflex, the backtick,
/// braces and the bar. It may hold any other.
pub proof fn addresses_hold_these_characters(c: char)
    ensures
        is_url_char(c) <==> {
            let n = c as u32;
            &&& !text::is_white(c)
            &&& n != 0x22 && n != 0x3c && n != 0x3e && n != 0x5b && n != 0x5c && n != 0x5d && n
                != 0x5e && n != 0x60 && n != 0x7b && n != 0x7c && n != 0x7d
        },
{
}

/// An address starts with `http://` or `https://`, in small letters, and at least one character
/// that it may hold behind that; it runs up to the first character that it may not hold.
pub proof fn addresses_start_with_a_scheme(
    before: Seq<char>,
    held: Seq<char>,
    after: Seq<char>,
    i: int,
)
    requires
        held.len() > 0,
        forall|k: int| 0 <= k < held.len() ==> is_url_char(#[trigger] held[k]),
        after.len() > 0 ==> !is_url_char(after[0]),
    ensures
        ({
            let plain = before + "http://"@ + held + after;
            let secure = before + "https://"@ + held + after;
            &&& starts_url(plain, before.len() as int)
            &&& url_end(plain, before.len() as int) == before.len() + 7 + held.len()
            &&& plain.subrange(before.len() as int, url_end(plain, before.len() as int))
                == "http://"@ + held
            &&& starts_url(secure, before.len() as int)
            &&& url_end(secure, before.len() as int) == before.len() + 8 + held.len()
            &&& secure.subrange(before.len() as int, url_end(secure, before.len() as int))
                == "https://"@ + held
        }),
        starts_url(before, i) ==> text::occurs_at(before, "http"@, i),
{
    reveal_strlit("http://");
    reveal_strlit("https://");
    reveal_strlit("http");
    let at = before.len() as int;
    let plain = before + "http://"@ + held + after;
    let secure = before + "https://"@ + held + after;
    assert(plain.subrange(at, at + 7) =~= "http://"@);
    assert(secure.subrange(at, at + 8) =~= "https://"@);
    assert("http://"@[4] == ':' && "https://"@[4] == 's');
    if text::occurs_at(plain, "https://"@, at) {
        assert(plain.subrange(at, at + 8)[4] == plain[at + 4]);
        assert(plain.subrange(at, at + 7)[4] == plain[at + 4]);
    }
    assert(plain[at + 7] == held[0]);
    assert(secure[at + 8] == held[0]);
    assert(plain.subrange(at + 7, at + 7 + held.len()) =~= held);
    assert(secure.subrange(at + 8, at + 8 + held.len()) =~= held);
    lemma_run_is(plain, at + 7, held);
    lemma_run_is(secure, at + 8, held);
    assert(plain.subrange(at, at + 7 + held.len()) =~= "http://"@ + held);
    assert(secure.subrange(at, at + 8 + held.len()) =~= "https://"@ + held);
    if starts_url(before, i) {
        if text::occurs_at(before, "https://"@, i) {
            assert(before.subrange(i, i + 4) =~= before.subrange(i, i + 8).subrange(0, 4));
            assert("https://"@.subrange(0, 4) =~= "http"@);
        } else {
            assert(before.subrange(i, i + 4) =~= before.subrange(i, i + 7).subrange(0, 4));
            assert("http://"@.subrange(0, 4) =~= "http"@);
        }
    }
}

/// A run of characters of an address ends where they do.
proof fn lemma_run_is(s: Seq<char>, from: int, held: Seq<char>)
    requires
        0 <= from,
        from + held.len() <= s.len(),
        forall|k: int| 0 <= k < held.len() ==> is_url_char(#[trigger] held[k]),
        s.subrange(from, from + held.len()) == held,
        from + held.len() < s.len() ==> !is_url_char(s[from + held.len()]),
    ensures
        run_end(s, from) == from + held.len(),
    decreases held.len(),
{
    if held.len() > 0 {
        assert(s[from] == held[0]);
        let rest = held.drop_first();
        assert(s.subrange(from + 1, from + 1 + rest.len()) =~= rest) by {
            assert forall|k: int| 0 <= k < rest.len() implies s.subrange(
                from + 1,
                from + 1 + rest.len(),
            )[k] == rest[k] by {
                assert(held[k + 1] == s.subrange(from, from + held.len())[k + 1]);
            }
        }
        assert forall|k: int| 0 <= k < rest.len() implies is_url_char(#[trigger] rest[k]) by {
            assert(rest[k] == held[k + 1]);
        }
        lemma_run_is(s, from + 1, rest);
    }
}

/// Each address that is listed starts like one and runs to its end, and no address is missed: one
/// that starts anywhere stands within one that is listed.
pub proof fn no_address_is_missed(s: Seq<char>, from: int, i: int, k: int)
    requires
        0 <= from,
    ensures
        0 <= k < url_spans(s, from).len() ==> starts_url(s, url_spans(s, from)[k].0) && url_spans(
            s,
            from,
        )[k].1 == url_end(s, url_spans(s, from)[k].0),
        from <= i && starts_url(s, i) ==> exists|j: int|
            0 <= j < url_spans(s, from).len() && (#[trigger] url_spans(s, from)[j]).0 <= i
                < url_spans(s, from)[j].1,
    decreases s.len() - from,
{
    lemma_next_url(s, from);
    if let Some(at) = next_url(s, from) {
        let spans = url_spans(s, from);
        let end = url_end(s, at);
        let rest = url_spans(s, end);
        no_address_is_missed(s, end, i, k - 1);
        if 0 < k < spans.len() {
            assert(spans[k] == rest[k - 1]);
        }
        if from <= i && starts_url(s, i) {
            if i < end {
                assert(spans[0].0 <= i < spans[0].1);
            } else {
                let j = choose|j: int|
                    0 <= j < rest.len() && (#[trigger] rest[j]).0 <= i < rest[j].1;
                assert(spans[j + 1] == rest[j]);
            }
        }
    }
}

/// The pattern asks for a scheme of the web and then for at least one character that is neither
/// white space nor one of those that end an address.
pub proof fn the_pattern_is_this()
    ensures
        URL_PATTERN@ == "(?:(?:https?)://)[^\\s<>\"`{}|\\[\\]\\\\^]+"@,
{
}

} // verus!
