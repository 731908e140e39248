//! Text primitives that the rest of the crate builds on.
//!
//! Every function works on the sequence of characters that a string holds.

use vstd::prelude::*;
use vstd::string::*;
use vstd::utf8::*;

verus! {

/// `String::push`: the string gains one character at its end.
pub assume_specification[ String::push ](s: &mut String, c: char)
    ensures
        final(s)@ == old(s)@.push(c),
;

/// The characters with the Unicode property `White_Space`.
pub open spec fn is_white(c: char) -> bool {
    ||| '\u{9}' <= c <= '\u{d}'
    ||| c == ' '
    ||| c == '\u{85}'
    ||| c == '\u{a0}'
    ||| c == '\u{1680}'
    ||| '\u{2000}' <= c <= '\u{200a}'
    ||| c == '\u{2028}'
    ||| c == '\u{2029}'
    ||| c == '\u{202f}'
    ||| c == '\u{205f}'
    ||| c == '\u{3000}'
}

/// Whether `c` is white space.
pub fn is_whitespace(c: char) -> (white: bool)
    ensures
        white == is_white(c),
{
    ('\u{9}' <= c && c <= '\u{d}') || c == ' ' || c == '\u{85}' || c == '\u{a0}' || c == '\u{1680}'
        || ('\u{2000}' <= c && c <= '\u{200a}') || c == '\u{2028}' || c == '\u{2029}'
        || c == '\u{202f}' || c == '\u{205f}' || c == '\u{3000}'
}

/// The characters of `s` in order.
pub fn chars_of(s: &str) -> (chars: Vec<char>)
    ensures
        chars@ == s@,
{
    let mut chars: Vec<char> = Vec::new();
    for c in it: s.chars()
        invariant
            it.seq() == s@,
            chars@ == s@.take(it.index() as int),
    {
        chars.push(c);
        assert(s@.take(it.index() as int).push(c) =~= s@.take(it.index() as int + 1));
    }
    assert(s@.take(s@.len() as int) =~= s@);
    chars
}

/// The string that holds the characters `chars[from..to]`.
pub fn string_of(chars: &Vec<char>, from: usize, to: usize) -> (s: String)
    requires
        from <= to <= chars.len(),
    ensures
        s@ == chars@.subrange(from as int, to as int),
{
    let mut s = String::new();
    let mut i: usize = from;
    while i < to
        invariant
            from <= i <= to <= chars.len(),
            s@ == chars@.subrange(from as int, i as int),
        decreases to - i,
    {
        s.push(chars[i]);
        assert(chars@.subrange(from as int, i as int).push(chars@[i as int])
            =~= chars@.subrange(from as int, i + 1));
        i += 1;
    }
    s
}


/// `s` without the white space at its start.
pub open spec fn trim_start_spec(s: Seq<char>) -> Seq<char>
    decreases s.len(),
{
    if s.len() > 0 && is_white(s[0]) {
        trim_start_spec(s.drop_first())
    } else {
        s
    }
}

/// `s` without the white space at its end.
pub open spec fn trim_end_spec(s: Seq<char>) -> Seq<char>
    decreases s.len(),
{
    if s.len() > 0 && is_white(s.last()) {
        trim_end_spec(s.drop_last())
    } else {
        s
    }
}

/// `s` without the white space at either end.
pub open spec fn trimmed(s: Seq<char>) -> Seq<char> {
    trim_end_spec(trim_start_spec(s))
}

/// `s` holds white space only.
pub open spec fn is_blank(s: Seq<char>) -> bool {
    forall|i: int| 0 <= i < s.len() ==> is_white(#[trigger] s[i])
}

/// Trimming leaves nothing exactly where the text is blank.
pub proof fn lemma_trimmed_empty(s: Seq<char>)
    ensures
        trimmed(s).len() == 0 <==> is_blank(s),
{
    lemma_trim_start_empty(s);
    lemma_trim_end_empty(trim_start_spec(s));
    let t = trim_start_spec(s);
    if t.len() > 0 {
        lemma_trim_start_head(s);
        assert(!is_white(t[0]));
    }
}

proof fn lemma_trim_start_head(s: Seq<char>)
    ensures
        trim_start_spec(s).len() > 0 ==> !is_white(trim_start_spec(s)[0]),
    decreases s.len(),
{
    if s.len() > 0 && is_white(s[0]) {
        lemma_trim_start_head(s.drop_first());
    }
}

proof fn lemma_trim_end_ends(s: Seq<char>)
    ensures
        trim_end_spec(s).len() > 0 ==> trim_end_spec(s)[0] == s[0] && !is_white(
            trim_end_spec(s).last(),
        ),
    decreases s.len(),
{
    if s.len() > 0 && is_white(s.last()) {
        lemma_trim_end_ends(s.drop_last());
    }
}

/// A trimmed text neither starts nor ends with white space.
pub proof fn lemma_trimmed_ends(s: Seq<char>)
    ensures
        trimmed(s).len() > 0 ==> !is_white(trimmed(s)[0]) && !is_white(trimmed(s).last()),
{
    lemma_trim_start_head(s);
    lemma_trim_end_ends(trim_start_spec(s));
    lemma_trim_end_empty(trim_start_spec(s));
}

proof fn lemma_trim_start_empty(s: Seq<char>)
    ensures
        trim_start_spec(s).len() == 0 <==> is_blank(s),
    decreases s.len(),
{
    if s.len() > 0 && is_white(s[0]) {
        lemma_trim_start_empty(s.drop_first());
        if is_blank(s.drop_first()) {
            assert forall|i: int| 0 <= i < s.len() implies is_white(#[trigger] s[i]) by {
                if i > 0 {
                    assert(s.drop_first()[i - 1] == s[i]);
                }
            }
        }
    }
}

proof fn lemma_trim_end_empty(s: Seq<char>)
    ensures
        trim_end_spec(s).len() == 0 <==> is_blank(s),
    decreases s.len(),
{
    if s.len() > 0 && is_white(s.last()) {
        lemma_trim_end_empty(s.drop_last());
        if is_blank(s.drop_last()) {
            assert forall|i: int| 0 <= i < s.len() implies is_white(#[trigger] s[i]) by {
                if i < s.len() - 1 {
                    assert(s.drop_last()[i] == s[i]);
                }
            }
        }
    }
}

/// The text without the white space at either end.
pub fn trim(s: &str) -> (t: String)
    ensures
        t@ == trimmed(s@),
{
    let chars = chars_of(s);
    let mut from: usize = 0;
    assert(chars@.subrange(0, chars@.len() as int) =~= chars@);
    while from < chars.len() && is_whitespace(chars[from])
        invariant
            from <= chars.len(),
            trim_start_spec(chars@) == trim_start_spec(chars@.subrange(from as int, chars@.len() as int)),
        decreases chars.len() - from,
    {
        assert(chars@.subrange(from as int, chars@.len() as int).drop_first()
            =~= chars@.subrange(from + 1, chars@.len() as int));
        from += 1;
    }
    let mut to: usize = chars.len();
    while to > from && is_whitespace(chars[to - 1])
        invariant
            from <= to <= chars.len(),
            trim_end_spec(chars@.subrange(from as int, chars@.len() as int))
                == trim_end_spec(chars@.subrange(from as int, to as int)),
        decreases to,
    {
        assert(chars@.subrange(from as int, to as int).drop_last()
            =~= chars@.subrange(from as int, to - 1));
        to -= 1;
    }
    string_of(&chars, from, to)
}

/// Whether the text holds white space only.
pub fn is_blank_text(s: &str) -> (blank: bool)
    ensures
        blank == is_blank(s@),
{
    let chars = chars_of(s);
    let mut i: usize = 0;
    while i < chars.len()
        invariant
            i <= chars.len(),
            chars@ == s@,
            forall|k: int| 0 <= k < i ==> is_white(#[trigger] s@[k]),
        decreases chars.len() - i,
    {
        if !is_whitespace(chars[i]) {
            assert(!is_white(s@[i as int]));
            return false;
        }
        i += 1;
    }
    true
}

/// `pat` stands in `s` at position `at`.
pub open spec fn occurs_at(s: Seq<char>, pat: Seq<char>, at: int) -> bool {
    &&& 0 <= at
    &&& at + pat.len() <= s.len()
    &&& s.subrange(at, at + pat.len()) == pat
}

/// `pat` stands somewhere in `s`.
pub open spec fn occurs(s: Seq<char>, pat: Seq<char>) -> bool {
    exists|at: int| occurs_at(s, pat, at)
}

/// `s` starts with `pat`.
pub open spec fn has_prefix(s: Seq<char>, pat: Seq<char>) -> bool {
    occurs_at(s, pat, 0)
}

/// Whether `pat` stands in `chars` at position `at`.
pub fn matches_at(chars: &Vec<char>, pat: &Vec<char>, at: usize) -> (found: bool)
    requires
        at <= chars.len(),
    ensures
        found == occurs_at(chars@, pat@, at as int),
{
    if pat.len() > chars.len() - at {
        return false;
    }
    let mut i: usize = 0;
    while i < pat.len()
        invariant
            at + pat.len() <= chars.len(),
            i <= pat.len(),
            forall|k: int| 0 <= k < i ==> chars@[at + k] == #[trigger] pat@[k],
        decreases pat.len() - i,
    {
        if chars[at + i] != pat[i] {
            assert(chars@.subrange(at as int, at + pat@.len())[i as int] != pat@[i as int]);
            return false;
        }
        i += 1;
    }
    assert(chars@.subrange(at as int, at + pat@.len()) =~= pat@);
    true
}

/// Whether the text starts with `pat`.
pub fn starts_with(s: &str, pat: &str) -> (found: bool)
    ensures
        found == has_prefix(s@, pat@),
{
    let chars = chars_of(s);
    let pattern = chars_of(pat);
    matches_at(&chars, &pattern, 0)
}

/// Whether the text holds `pat`.
pub fn contains(s: &str, pat: &str) -> (found: bool)
    ensures
        found == occurs(s@, pat@),
{
    let chars = chars_of(s);
    let pattern = chars_of(pat);
    let mut at: usize = 0;
    while at < chars.len()
        invariant
            at <= chars.len(),
            chars@ == s@,
            pattern@ == pat@,
            forall|k: int| 0 <= k < at ==> !#[trigger] occurs_at(s@, pat@, k),
        decreases chars.len() - at,
    {
        if matches_at(&chars, &pattern, at) {
            return true;
        }
        at += 1;
    }
    let found = matches_at(&chars, &pattern, at);
    proof {
        if !found {
            assert forall|k: int| !occurs_at(s@, pat@, k) by {}
        }
    }
    found
}

/// Whether two texts hold the same characters.
pub fn same_text(a: &str, b: &str) -> (same: bool)
    ensures
        same == (a@ == b@),
{
    let left = chars_of(a);
    let right = chars_of(b);
    if left.len() != right.len() {
        return false;
    }
    let same = matches_at(&left, &right, 0);
    assert(left@.subrange(0, left@.len() as int) =~= left@);
    same
}

/// `s` with every `from` replaced by `to`, read from the left, no two overlapping.
pub open spec fn replaced(s: Seq<char>, from: Seq<char>, to: Seq<char>) -> Seq<char>
    decreases s.len(),
{
    if from.len() == 0 || s.len() < from.len() {
        s
    } else if has_prefix(s, from) {
        to + replaced(s.skip(from.len() as int), from, to)
    } else {
        seq![s[0]] + replaced(s.drop_first(), from, to)
    }
}

/// The text with every `from` replaced by `to`.
pub fn replace(s: &str, from: &str, to: &str) -> (out: String)
    requires
        from@.len() > 0,
    ensures
        out@ == replaced(s@, from@, to@),
{
    let chars = chars_of(s);
    let pattern = chars_of(from);
    let mut out = String::new();
    let mut at: usize = 0;
    assert(chars@.skip(0) =~= chars@);
    assert(Seq::<char>::empty() + replaced(s@, from@, to@) =~= replaced(s@, from@, to@));
    while at < chars.len()
        invariant
            at <= chars.len(),
            chars@ == s@,
            pattern@ == from@,
            from@.len() > 0,
            replaced(s@, from@, to@) == out@ + replaced(s@.skip(at as int), from@, to@),
        decreases chars.len() - at,
    {
        let ghost rest = s@.skip(at as int);
        assert(rest.len() >= from@.len() ==> rest.subrange(0, from@.len() as int)
            =~= s@.subrange(at as int, at + from@.len()));
        let ghost before = out@;
        if matches_at(&chars, &pattern, at) {
            assert(rest.skip(from@.len() as int) =~= s@.skip(at + from@.len()));
            out.append(to);
            at += pattern.len();
            assert(before + (to@ + replaced(s@.skip(at as int), from@, to@))
                =~= out@ + replaced(s@.skip(at as int), from@, to@));
        } else {
            out.push(chars[at]);
            assert(rest.drop_first() =~= s@.skip(at + 1));
            at += 1;
            proof {
                let tail = s@.skip(at as int);
                if rest.len() < from@.len() {
                    assert(seq![rest[0]] + tail =~= rest);
                }
                assert(before + (seq![rest[0]] + replaced(tail, from@, to@))
                    =~= out@ + replaced(tail, from@, to@));
            }
        }
    }
    assert(out@ + Seq::<char>::empty() =~= out@);
    assert(s@.skip(at as int) =~= Seq::<char>::empty());
    out
}

/// `c` with an ASCII capital turned into its small letter.
pub open spec fn ascii_lower(c: char) -> char {
    if 'A' <= c <= 'Z' {
        (c as u32 + 32) as char
    } else {
        c
    }
}

/// `s` with every ASCII capital turned into its small letter.
pub open spec fn ascii_lowered(s: Seq<char>) -> Seq<char> {
    s.map_values(|c: char| ascii_lower(c))
}

/// The text with every ASCII capital turned into its small letter.
pub fn to_ascii_lowercase(s: &str) -> (out: String)
    ensures
        out@ == ascii_lowered(s@),
{
    let chars = chars_of(s);
    let mut out = String::new();
    let mut i: usize = 0;
    while i < chars.len()
        invariant
            i <= chars.len(),
            chars@ == s@,
            out@ == ascii_lowered(s@.take(i as int)),
        decreases chars.len() - i,
    {
        let c = chars[i];
        let lowered = if 'A' <= c && c <= 'Z' {
            ((c as u8) + 32) as char
        } else {
            c
        };
        out.push(lowered);
        assert(s@.take(i + 1) =~= s@.take(i as int).push(c));
        assert(out@ =~= ascii_lowered(s@.take(i + 1)));
        i += 1;
    }
    assert(s@.take(s@.len() as int) =~= s@);
    out
}

/// The first `n` characters of the text, or all of it where it is shorter.
pub fn first_chars(s: &str, n: usize) -> (out: String)
    ensures
        out@ == s@.take(if n <= s@.len() { n as int } else { s@.len() as int }),
{
    let chars = chars_of(s);
    let to: usize = if n <= chars.len() {
        n
    } else {
        chars.len()
    };
    let out = string_of(&chars, 0, to);
    assert(chars@.subrange(0, to as int) =~= chars@.take(to as int));
    out
}

/// The digit character of `d`.
pub open spec fn digit_char(d: nat) -> char {
    (48 + d) as char
}

/// `n` in decimal, without leading zeros.
pub open spec fn decimal(n: nat) -> Seq<char>
    decreases n,
{
    if n < 10 {
        seq![digit_char(n)]
    } else {
        decimal(n / 10).push(digit_char(n % 10))
    }
}

/// `n` in decimal.
pub fn decimal_text(n: u64) -> (s: String)
    ensures
        s@ == decimal(n as nat),
    decreases n,
{
    let digit: u8 = (n % 10) as u8;
    let mut s = if n < 10 {
        String::new()
    } else {
        decimal_text(n / 10)
    };
    s.push((48 + digit) as char);
    proof {
        if n < 10 {
            assert(s@ =~= seq![digit_char(n as nat)]);
        }
    }
    s
}

/// `s` is one or more ASCII digits.
pub open spec fn all_digits(s: Seq<char>) -> bool {
    s.len() > 0 && forall|i: int| 0 <= i < s.len() ==> '0' <= #[trigger] s[i] <= '9'
}

/// The number that the digits of `s` write in decimal.
pub open spec fn digits_value(s: Seq<char>) -> nat
    decreases s.len(),
{
    if s.len() == 0 {
        0
    } else {
        (digits_value(s.drop_last()) * 10 + (s.last() as nat - 48)) as nat
    }
}

/// `s` without one leading `+`, which an unsigned number may carry.
pub open spec fn without_plus(s: Seq<char>) -> Seq<char> {
    if s.len() > 0 && s[0] == '+' {
        s.drop_first()
    } else {
        s
    }
}

/// The `u16` that `s` writes in decimal, if it writes one.
pub open spec fn u16_value(s: Seq<char>) -> Option<u16> {
    let digits = without_plus(s);
    if all_digits(digits) && digits_value(digits) <= u16::MAX {
        Some(digits_value(digits) as u16)
    } else {
        None
    }
}

proof fn lemma_digits_value_grows(s: Seq<char>, i: int)
    requires
        0 <= i <= s.len(),
        all_digits(s),
    ensures
        digits_value(s.take(i)) <= digits_value(s),
    decreases s.len() - i,
{
    if i < s.len() {
        lemma_digits_value_grows(s, i + 1);
        assert(s.take(i + 1).drop_last() =~= s.take(i));
        assert('0' <= s[i]);
    } else {
        assert(s.take(i) =~= s);
    }
}

/// What a number in decimal consists of.
pub proof fn lemma_decimal_digits(n: nat)
    ensures
        all_digits(decimal(n)),
        digits_value(decimal(n)) == n,
    decreases n,
{
    let s = decimal(n);
    if n < 10 {
        reveal_with_fuel(digits_value, 2);
        assert(s.drop_last() =~= Seq::<char>::empty());
    } else {
        lemma_decimal_digits(n / 10);
        assert(s.drop_last() =~= decimal(n / 10));
        assert(s.last() == digit_char(n % 10));
        assert forall|i: int| 0 <= i < s.len() implies '0' <= #[trigger] s[i] <= '9' by {
            if i < s.len() - 1 {
                assert(s[i] == decimal(n / 10)[i]);
            }
        }
    }
}

/// A number in decimal, with an end or another character than a digit after it, tells where it
/// ends and which number it is.
pub proof fn lemma_decimal_prefix(a: nat, b: nat, after_a: Seq<char>, after_b: Seq<char>)
    requires
        decimal(a) + after_a == decimal(b) + after_b,
        after_a.len() > 0 ==> !('0' <= after_a[0] <= '9'),
        after_b.len() > 0 ==> !('0' <= after_b[0] <= '9'),
    ensures
        a == b,
        after_a == after_b,
{
    lemma_decimal_digits(a);
    lemma_decimal_digits(b);
    let left = decimal(a) + after_a;
    let right = decimal(b) + after_b;
    let m = decimal(a).len() as int;
    let n = decimal(b).len() as int;
    if m < n {
        assert('0' <= decimal(b)[m] <= '9');
        assert(right[m] == decimal(b)[m]);
        assert(left[m] == after_a[0]);
    } else if n < m {
        assert('0' <= decimal(a)[n] <= '9');
        assert(left[n] == decimal(a)[n]);
        assert(right[n] == after_b[0]);
    }
    assert(decimal(a) =~= left.take(m));
    assert(decimal(b) =~= right.take(n));
    assert(after_a =~= left.skip(m));
    assert(after_b =~= right.skip(n));
}

/// The place at which the digits that start at `from` end.
pub fn digits_end(chars: &Vec<char>, from: usize) -> (end: usize)
    requires
        from <= chars.len(),
    ensures
        from <= end <= chars.len(),
        forall|k: int| from <= k < end ==> '0' <= #[trigger] chars@[k] <= '9',
        end < chars.len() ==> !('0' <= chars@[end as int] <= '9'),
{
    let mut end: usize = from;
    while end < chars.len() && '0' <= chars[end] && chars[end] <= '9'
        invariant
            from <= end <= chars.len(),
            forall|k: int| from <= k < end ==> '0' <= #[trigger] chars@[k] <= '9',
        decreases chars.len() - end,
    {
        end += 1;
    }
    end
}

/// A number that was written in decimal is read back, and trimming changes nothing of it.
pub proof fn decimal_is_read_back(n: u16)
    ensures
        u16_value(decimal(n as nat)) == Some(n),
        trimmed(decimal(n as nat)) == decimal(n as nat),
{
    let s = decimal(n as nat);
    lemma_decimal_digits(n as nat);
    assert('0' <= s[0] <= '9');
    assert('0' <= s[s.len() - 1] <= '9');
}

/// The `u16` that the text writes in decimal, with an optional `+` in front.
pub fn parse_u16(s: &str) -> (value: Option<u16>)
    ensures
        value == u16_value(s@),
{
    let chars = chars_of(s);
    let from: usize = if chars.len() > 0 && chars[0] == '+' {
        1
    } else {
        0
    };
    let ghost digits = without_plus(s@);
    assert(digits =~= s@.skip(from as int));
    if from == chars.len() {
        return None;
    }
    let mut i: usize = from;
    while i < chars.len()
        invariant
            from <= i <= chars.len(),
            chars@ == s@,
            digits == s@.skip(from as int),
            digits == without_plus(s@),
            forall|k: int| 0 <= k < i - from ==> '0' <= #[trigger] digits[k] <= '9',
        decreases chars.len() - i,
    {
        let c = chars[i];
        if !('0' <= c && c <= '9') {
            assert(digits[i - from] == c);
            return None;
        }
        i += 1;
    }
    let mut value: u32 = 0;
    let mut j: usize = from;
    assert(digits.take(0) =~= Seq::<char>::empty());
    while j < chars.len()
        invariant
            from <= j <= chars.len(),
            chars@ == s@,
            digits == s@.skip(from as int),
            digits == without_plus(s@),
            all_digits(digits),
            value == digits_value(digits.take(j - from)),
            value <= u16::MAX,
        decreases chars.len() - j,
    {
        let c = chars[j];
        assert(digits[j - from] == c);
        value = value * 10 + (c as u32 - 48);
        assert(digits.take(j + 1 - from).drop_last() =~= digits.take(j - from));
        if value > 65535 {
            proof {
                lemma_digits_value_grows(digits, j + 1 - from);
            }
            return None;
        }
        j += 1;
    }
    assert(digits.take(digits.len() as int) =~= digits);
    Some(value as u16)
}

/// `a` stands strictly before `b` in dictionary order of code points.
pub open spec fn text_before(a: Seq<char>, b: Seq<char>) -> bool
    decreases a.len(),
{
    if b.len() == 0 {
        false
    } else if a.len() == 0 {
        true
    } else if a[0] == b[0] {
        text_before(a.drop_first(), b.drop_first())
    } else {
        a[0] < b[0]
    }
}

/// Of two different texts exactly one stands before the other.
pub proof fn lemma_text_before_total(a: Seq<char>, b: Seq<char>)
    ensures
        a != b ==> (text_before(a, b) || text_before(b, a)),
        !(text_before(a, b) && text_before(b, a)),
        !text_before(a, a),
    decreases a.len(),
{
    if a.len() == 0 || b.len() == 0 {
        if a.len() == b.len() {
            assert(a =~= b);
        }
        if a.len() > 0 {
            lemma_text_before_total(a.drop_first(), a.drop_first());
        }
    } else {
        lemma_text_before_total(a.drop_first(), b.drop_first());
        if a[0] == b[0] && a.drop_first() == b.drop_first() {
            assert(a =~= seq![a[0]] + a.drop_first());
            assert(b =~= seq![b[0]] + b.drop_first());
        }
    }
}

/// Standing before is transitive.
pub proof fn lemma_text_before_transitive(a: Seq<char>, b: Seq<char>, c: Seq<char>)
    requires
        text_before(a, b),
        text_before(b, c),
    ensures
        text_before(a, c),
    decreases a.len(),
{
    if a.len() > 0 && b.len() > 0 && c.len() > 0 && a[0] == b[0] && b[0] == c[0] {
        lemma_text_before_transitive(a.drop_first(), b.drop_first(), c.drop_first());
    }
}

/// Whether `a` stands strictly before `b` in dictionary order.
pub fn comes_before(a: &str, b: &str) -> (before: bool)
    ensures
        before == text_before(a@, b@),
{
    let left = chars_of(a);
    let right = chars_of(b);
    let mut i: usize = 0;
    assert(a@.skip(0) =~= a@);
    assert(b@.skip(0) =~= b@);
    while i < left.len() && i < right.len() && left[i] == right[i]
        invariant
            i <= left.len(),
            i <= right.len(),
            left@ == a@,
            right@ == b@,
            text_before(a@, b@) == text_before(a@.skip(i as int), b@.skip(i as int)),
        decreases left.len() - i,
    {
        assert(a@.skip(i as int).drop_first() =~= a@.skip(i + 1));
        assert(b@.skip(i as int).drop_first() =~= b@.skip(i + 1));
        i += 1;
    }
    if i == right.len() {
        false
    } else if i == left.len() {
        true
    } else {
        left[i] < right[i]
    }
}

/// The characters that the bytes `from..to` of the encoding of `s` hold.
pub open spec fn byte_slice(s: Seq<char>, from: int, to: int) -> Seq<char> {
    decode_utf8(encode_utf8(s).subrange(from, to))
}

/// `from..to` is a range of bytes of `s` that starts and ends between characters.
pub open spec fn is_byte_range(s: Seq<char>, from: int, to: int) -> bool {
    &&& 0 <= from <= to <= encode_utf8(s).len()
    &&& is_char_boundary(encode_utf8(s), from)
    &&& is_char_boundary(encode_utf8(s), to)
}

/// The number of bytes that the text takes.
pub fn byte_len(s: &str) -> (n: usize)
    ensures
        n == encode_utf8(s@).len(),
{
    s.as_bytes().len()
}

/// A boundary stays a boundary when the text is cut at an earlier boundary.
pub proof fn lemma_boundary_in_tail(bytes: Seq<u8>, from: int, to: int)
    requires
        valid_utf8(bytes),
        0 <= from <= to <= bytes.len(),
        is_char_boundary(bytes, from),
        is_char_boundary(bytes, to),
    ensures
        valid_utf8(bytes.skip(from)),
        is_char_boundary(bytes.skip(from), to - from),
{
    valid_utf8_split(bytes, from);
    let tail = bytes.skip(from);
    assert(tail =~= bytes.subrange(from, bytes.len() as int));
    if to == bytes.len() {
        is_char_boundary_start_end_of_seq(tail);
    } else {
        is_char_boundary_iff_not_is_continuation_byte(bytes, to);
        is_char_boundary_iff_not_is_continuation_byte(tail, to - from);
        assert(tail[to - from] == bytes[to]);
    }
}

/// The part of the text that the bytes `from..to` hold.
pub fn slice_bytes(s: &str, from: usize, to: usize) -> (part: String)
    requires
        is_byte_range(s@, from as int, to as int),
    ensures
        part@ == byte_slice(s@, from as int, to as int),
{
    let ghost bytes = encode_utf8(s@);
    proof {
        encode_utf8_valid_utf8(s@);
        lemma_boundary_in_tail(bytes, from as int, to as int);
    }
    let (_, tail) = s.split_at(from);
    assert(tail.spec_bytes() =~= bytes.skip(from as int));
    let (part, _) = tail.split_at(to - from);
    assert(part.spec_bytes() =~= bytes.subrange(from as int, to as int));
    proof {
        encode_utf8_decode_utf8(part@);
    }
    part.to_owned()
}

/// Neighbouring byte ranges join to the range over both.
pub proof fn lemma_byte_slices_join(s: Seq<char>, from: int, mid: int, to: int)
    requires
        is_byte_range(s, from, mid),
        is_byte_range(s, mid, to),
    ensures
        byte_slice(s, from, mid) + byte_slice(s, mid, to) == byte_slice(s, from, to),
{
    let bytes = encode_utf8(s);
    encode_utf8_valid_utf8(s);
    lemma_boundary_in_tail(bytes, from, to);
    lemma_boundary_in_tail(bytes, from, mid);
    let tail = bytes.skip(from);
    valid_utf8_split(tail, to - from);
    let part = tail.subrange(0, to - from);
    assert(part =~= bytes.subrange(from, to));
    if mid == to {
        is_char_boundary_start_end_of_seq(part);
    } else {
        is_char_boundary_iff_not_is_continuation_byte(tail, mid - from);
        is_char_boundary_iff_not_is_continuation_byte(part, mid - from);
        assert(part[mid - from] == tail[mid - from]);
    }
    decode_utf8_split(part, mid - from);
    assert(part.subrange(0, mid - from) =~= bytes.subrange(from, mid));
    assert(part.subrange(mid - from, part.len() as int) =~= bytes.subrange(mid, to));
}

/// The range over all bytes holds the whole text, an empty range holds nothing.
pub proof fn lemma_byte_slice_ends(s: Seq<char>, at: int)
    requires
        0 <= at <= encode_utf8(s).len(),
    ensures
        byte_slice(s, 0, encode_utf8(s).len() as int) == s,
        byte_slice(s, at, at) == Seq::<char>::empty(),
        is_byte_range(s, 0, encode_utf8(s).len() as int),
{
    let bytes = encode_utf8(s);
    assert(bytes.subrange(0, bytes.len() as int) =~= bytes);
    encode_utf8_decode_utf8(s);
    encode_utf8_valid_utf8(s);
    is_char_boundary_start_end_of_seq(bytes);
    assert(bytes.subrange(at, at) =~= Seq::<u8>::empty());
    assert(decode_utf8(Seq::<u8>::empty()) =~= Seq::<char>::empty());
}

/// The characters of an optional text.
pub open spec fn opt_text(t: Option<String>) -> Option<Seq<char>> {
    match t {
        Some(s) => Some(s@),
        None => None,
    }
}

/// The characters of each text of a list.
pub open spec fn texts(list: Seq<String>) -> Seq<Seq<char>> {
    list.map_values(|s: String| s@)
}

/// A copy of an optional text.
pub fn clone_opt(t: &Option<String>) -> (copy: Option<String>)
    ensures
        opt_text(copy) == opt_text(*t),
{
    match t {
        Some(s) => Some(s.clone()),
        None => None,
    }
}

/// A byte range takes as many bytes as it spans.
pub proof fn lemma_byte_slice_len(s: Seq<char>, from: int, to: int)
    requires
        is_byte_range(s, from, to),
    ensures
        encode_utf8(byte_slice(s, from, to)).len() == to - from,
{
    let bytes = encode_utf8(s);
    encode_utf8_valid_utf8(s);
    lemma_boundary_in_tail(bytes, from, to);
    let tail = bytes.skip(from);
    valid_utf8_split(tail, to - from);
    assert(tail.subrange(0, to - from) =~= bytes.subrange(from, to));
    decode_utf8_encode_utf8(bytes.subrange(from, to));
}

/// The bytes of two texts in a row are the bytes of the one, then of the other.
pub proof fn lemma_encode_concat(a: Seq<char>, b: Seq<char>)
    ensures
        encode_utf8(a + b) == encode_utf8(a) + encode_utf8(b),
    decreases a.len(),
{
    if a.len() == 0 {
        assert(a + b =~= b);
        assert(encode_utf8(a) + encode_utf8(b) =~= encode_utf8(b));
    } else {
        lemma_encode_concat(a.drop_first(), b);
        assert((a + b).drop_first() =~= a.drop_first() + b);
        assert(encode_utf8(a + b) =~= encode_utf8(a) + encode_utf8(b));
    }
}

/// The parts one after the other, with `sep` between them.
pub open spec fn joined_with(parts: Seq<Seq<char>>, sep: Seq<char>) -> Seq<char>
    decreases parts.len(),
{
    if parts.len() == 0 {
        Seq::empty()
    } else if parts.len() == 1 {
        parts[0]
    } else {
        joined_with(parts.drop_last(), sep) + sep + parts.last()
    }
}

/// The parts one after the other, with `sep` between them.
pub fn join(parts: &Vec<String>, sep: &str) -> (out: String)
    ensures
        out@ == joined_with(texts(parts@), sep@),
{
    let mut out = String::new();
    let mut i: usize = 0;
    while i < parts.len()
        invariant
            i <= parts.len(),
            out@ == joined_with(texts(parts@).take(i as int), sep@),
        decreases parts.len() - i,
    {
        let ghost before = out@;
        if i > 0 {
            out.append(sep);
        }
        out.append(parts[i].as_str());
        proof {
            let now = texts(parts@).take(i + 1);
            assert(now.drop_last() =~= texts(parts@).take(i as int));
            assert(now.last() == parts@[i as int]@);
            if i == 0 {
                assert(out@ =~= now[0]);
            }
        }
        i += 1;
    }
    assert(texts(parts@).take(parts@.len() as int) =~= texts(parts@));
    out
}

/// White space is told by its code point.
pub proof fn white_space_has_these_code_points(c: char)
    ensures
        is_white(c) <==> {
            let n = c as u32;
            9 <= n <= 13 || n == 32 || n == 0x85 || n == 0xa0 || n == 0x1680 || 0x2000 <= n
                <= 0x200a || n == 0x2028 || n == 0x2029 || n == 0x202f || n == 0x205f || n == 0x3000
        },
{
}

/// Trimming takes away white space at the ends and nothing else.
pub proof fn trimming_takes_only_the_ends(s: Seq<char>, lead: Seq<char>, kept: Seq<char>, trail:
    Seq<char>)
    requires
        s == lead + kept + trail,
        is_blank(lead),
        is_blank(trail),
        kept.len() > 0 ==> !is_white(kept[0]) && !is_white(kept.last()),
        kept.len() == 0 ==> lead.len() == 0 || trail.len() == 0,
    ensures
        trimmed(s) == kept,
{
    lemma_trim_lead(lead, kept + trail);
    assert(lead + (kept + trail) =~= s);
    if kept.len() > 0 {
        assert((kept + trail)[0] == kept[0]);
        assert(trim_start_spec(kept + trail) == kept + trail);
        lemma_trim_trail(kept, trail);
    } else {
        assert(s =~= lead + trail);
        assert(is_blank(s)) by {
            assert forall|i: int| 0 <= i < s.len() implies is_white(#[trigger] s[i]) by {
                if i < lead.len() {
                    assert(s[i] == lead[i]);
                } else {
                    assert(s[i] == trail[i - lead.len()]);
                }
            }
        }
        lemma_trimmed_empty(s);
        assert(trimmed(s) =~= kept);
    }
}

proof fn lemma_trim_lead(lead: Seq<char>, rest: Seq<char>)
    requires
        is_blank(lead),
    ensures
        trim_start_spec(lead + rest) == trim_start_spec(rest),
    decreases lead.len(),
{
    if lead.len() > 0 {
        assert(is_white(lead[0]));
        assert(is_blank(lead.drop_first())) by {
            assert forall|i: int| 0 <= i < lead.drop_first().len() implies is_white(
                #[trigger] lead.drop_first()[i],
            ) by {
                assert(lead.drop_first()[i] == lead[i + 1]);
            }
        }
        lemma_trim_lead(lead.drop_first(), rest);
        assert((lead + rest).drop_first() =~= lead.drop_first() + rest);
    } else {
        assert(lead + rest =~= rest);
    }
}

proof fn lemma_trim_trail(kept: Seq<char>, trail: Seq<char>)
    requires
        is_blank(trail),
        kept.len() > 0,
        !is_white(kept.last()),
    ensures
        trim_end_spec(kept + trail) == kept,
    decreases trail.len(),
{
    if trail.len() > 0 {
        assert(is_white(trail[trail.len() - 1]));
        assert(is_blank(trail.drop_last())) by {
            assert forall|i: int| 0 <= i < trail.drop_last().len() implies is_white(
                #[trigger] trail.drop_last()[i],
            ) by {
                assert(trail.drop_last()[i] == trail[i]);
            }
        }
        lemma_trim_trail(kept, trail.drop_last());
        assert((kept + trail).drop_last() =~= kept + trail.drop_last());
    } else {
        assert(kept + trail =~= kept);
    }
}

/// Every occurrence is replaced, from the left: what stands before the first is kept, and behind
/// it the search goes on. A text without occurrences is kept.
pub proof fn every_occurrence_is_replaced(
    before: Seq<char>,
    from: Seq<char>,
    after: Seq<char>,
    to: Seq<char>,
)
    requires
        from.len() > 0,
        forall|k: int| 0 <= k < before.len() ==> !#[trigger] occurs_at(before + from + after, from, k),
    ensures
        replaced(before + from + after, from, to) == before + to + replaced(after, from, to),
    decreases before.len(),
{
    let s = before + from + after;
    if before.len() == 0 {
        assert(s.subrange(0, from.len() as int) =~= from);
        assert(s.skip(from.len() as int) =~= after);
        assert(to + replaced(after, from, to) =~= before + to + replaced(after, from, to));
    } else {
        let rest = before.drop_first();
        assert(s.drop_first() =~= rest + from + after);
        assert(!occurs_at(s, from, 0));
        assert forall|k: int| 0 <= k < rest.len() implies !#[trigger] occurs_at(
            rest + from + after,
            from,
            k,
        ) by {
            assert(!occurs_at(s, from, k + 1));
            assert((rest + from + after).subrange(k, k + from.len()) =~= s.subrange(
                k + 1,
                k + 1 + from.len(),
            ));
        }
        every_occurrence_is_replaced(rest, from, after, to);
        assert(seq![s[0]] + (rest + to + replaced(after, from, to)) =~= before + to + replaced(
            after,
            from,
            to,
        ));
    }
}

/// A text in which a pattern does not occur is left as it is.
pub proof fn what_does_not_occur_is_not_replaced(s: Seq<char>, from: Seq<char>, to: Seq<char>)
    requires
        !occurs(s, from),
    ensures
        replaced(s, from, to) == s,
    decreases s.len(),
{
    if from.len() > 0 && s.len() >= from.len() {
        assert(!occurs_at(s, from, 0));
        assert(!occurs(s.drop_first(), from)) by {
            if occurs(s.drop_first(), from) {
                let k = choose|k: int| occurs_at(s.drop_first(), from, k);
                assert(s.drop_first().subrange(k, k + from.len()) =~= s.subrange(
                    k + 1,
                    k + 1 + from.len(),
                ));
                assert(occurs_at(s, from, k + 1));
            }
        }
        what_does_not_occur_is_not_replaced(s.drop_first(), from, to);
        assert(seq![s[0]] + s.drop_first() =~= s);
    }
}

/// A pattern occurs exactly where the text can be cut into what stands before it, the pattern,
/// and what stands behind it.
pub proof fn occurring_is_standing_between(s: Seq<char>, pat: Seq<char>)
    ensures
        occurs(s, pat) <==> exists|before: Seq<char>, after: Seq<char>|
            s == #[trigger] (before + pat + after),
        has_prefix(s, pat) <==> exists|after: Seq<char>| s == #[trigger] (pat + after),
{
    if occurs(s, pat) {
        let at = choose|at: int| occurs_at(s, pat, at);
        assert(s =~= s.take(at) + pat + s.skip(at + pat.len()));
    }
    if exists|before: Seq<char>, after: Seq<char>| s == #[trigger] (before + pat + after) {
        let (before, after) = choose|before: Seq<char>, after: Seq<char>|
            s == #[trigger] (before + pat + after);
        assert(s.subrange(before.len() as int, (before.len() + pat.len()) as int) =~= pat);
        assert(occurs_at(s, pat, before.len() as int));
    }
    if has_prefix(s, pat) {
        assert(s =~= pat + s.skip(pat.len() as int));
    }
    if exists|after: Seq<char>| s == #[trigger] (pat + after) {
        let after = choose|after: Seq<char>| s == #[trigger] (pat + after);
        assert(s.subrange(0, pat.len() as int) =~= pat);
    }
}

/// Only the 26 capital letters of ASCII become small, each by the same distance.
pub proof fn only_capitals_are_lowered(s: Seq<char>, i: int)
    requires
        0 <= i < s.len(),
    ensures
        ascii_lowered(s).len() == s.len(),
        65 <= s[i] as u32 <= 90 ==> ascii_lowered(s)[i] as u32 == s[i] as u32 + 32,
        !(65 <= s[i] as u32 <= 90) ==> ascii_lowered(s)[i] == s[i],
{
}

/// The number that is read is the one that the digits write, with a plus sign or without, leading
/// zeros or not; nothing else is read.
pub proof fn numbers_are_read_digit_by_digit(s: Seq<char>, digit: char, n: u16)
    ensures
        u16_value(s) == Some(n) && '0' <= digit <= '9' && n * 10 + (digit as u32 - 48) <= u16::MAX
            ==> u16_value(s.push(digit)) == Some((n * 10 + (digit as u32 - 48)) as u16),
        u16_value(s) == Some(n) && '0' <= digit <= '9' && n * 10 + (digit as u32 - 48) > u16::MAX
            ==> u16_value(s.push(digit)) is None,
        !('0' <= digit <= '9') ==> u16_value(s.push(digit)) is None,
        u16_value(Seq::empty()) is None,
        '0' <= digit <= '9' ==> u16_value(seq![digit]) == Some((digit as u32 - 48) as u16),
        u16_value(s) == Some(n) && s[0] != '+' ==> u16_value(seq!['+'] + s) == Some(n),
{
    let longer = s.push(digit);
    let digits = without_plus(longer);
    assert(Seq::<char>::empty().len() == 0);
    if u16_value(s) == Some(n) {
        let old_digits = without_plus(s);
        assert(digits =~= old_digits.push(digit));
        assert(digits.drop_last() =~= old_digits);
        if '0' <= digit <= '9' {
            assert forall|i: int| 0 <= i < digits.len() implies '0' <= #[trigger] digits[i]
                <= '9' by {
                if i < old_digits.len() {
                    assert(digits[i] == old_digits[i]);
                }
            }
        }
        if s[0] != '+' {
            assert((seq!['+'] + s).drop_first() =~= s);
        }
    }
    if !('0' <= digit <= '9') {
        if all_digits(digits) {
            assert(digits[digits.len() - 1] == digit);
        }
    }
    if '0' <= digit <= '9' {
        let one = seq![digit];
        reveal_with_fuel(digits_value, 2);
        assert(one.drop_last() =~= Seq::<char>::empty());
        assert(digits_value(one) == digit as nat - 48);
        assert(all_digits(one));
    }
}

/// One text stands before another where it is the start of it, or where at the first place at
/// which they differ it has the smaller character.
pub proof fn dictionary_order_goes_by_the_first_difference(
    common: Seq<char>,
    a: char,
    b: char,
    after_a: Seq<char>,
    after_b: Seq<char>,
)
    ensures
        a < b ==> text_before(common + seq![a] + after_a, common + seq![b] + after_b),
        text_before(common, common + seq![b] + after_b),
    decreases common.len(),
{
    let left = common + seq![a] + after_a;
    let right = common + seq![b] + after_b;
    if common.len() > 0 {
        dictionary_order_goes_by_the_first_difference(common.drop_first(), a, b, after_a, after_b);
        assert(left.drop_first() =~= common.drop_first() + seq![a] + after_a);
        assert(right.drop_first() =~= common.drop_first() + seq![b] + after_b);
    }
}

/// Parts are joined in order, with the separator between any two and nowhere else.
pub proof fn parts_are_joined_in_order(
    parts: Seq<Seq<char>>,
    part: Seq<char>,
    sep: Seq<char>,
)
    ensures
        joined_with(Seq::empty(), sep) == Seq::<char>::empty(),
        joined_with(seq![part], sep) == part,
        parts.len() > 0 ==> joined_with(parts.push(part), sep) == joined_with(parts, sep) + sep
            + part,
{
    if parts.len() > 0 {
        assert(parts.push(part).drop_last() =~= parts);
    }
}

/// Numbers are written with the digits from `0` to `9`, the last of them for the units.
pub proof fn numbers_are_written_in_decimal(n: nat, digit: nat)
    requires
        digit < 10,
    ensures
        decimal(digit).len() == 1 && decimal(digit)[0] as u32 == 48 + digit,
        n > 0 ==> decimal(n * 10 + digit) == decimal(n) + decimal(digit),
{
    if n > 0 {
        assert((n * 10 + digit) / 10 == n && (n * 10 + digit) % 10 == digit);
        assert(decimal(n * 10 + digit) =~= decimal(n) + decimal(digit));
    }
}

} // verus!
