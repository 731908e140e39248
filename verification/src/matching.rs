//! Regular expressions, as the `regex` crate evaluates them.

use vstd::prelude::*;

use crate::text;

verus! {

/// What the first group of the first match of `pattern` in `text` holds, if there is one.
pub uninterp spec fn regex_group_one(pattern: Seq<char>, text: Seq<char>) -> Option<Seq<char>>;

/// `regex::Regex::new` and `Regex::captures`: what the first group of the first match holds.
///
/// The result is `None` where `pattern` is not a regular expression, where nothing matches and
/// where the match leaves the group out. What the group holds is not stated; it has a name.
#[verifier::external_body]
pub(crate) fn capture_one(pattern: &str, text: &str) -> (group: Option<String>)
    ensures
        text::opt_text(group) == regex_group_one(pattern@, text@),
{
    let regex = regex::Regex::new(pattern).ok()?;
    Some(regex.captures(text)?.get(1)?.as_str().to_string())
}

/// The characters that carry a meaning in a regular expression.
pub open spec fn is_meta(c: char) -> bool {
    ||| c == '\\' || c == '.' || c == '+' || c == '*' || c == '?' || c == '(' || c == ')'
    ||| c == '|' || c == '[' || c == ']' || c == '{' || c == '}' || c == '^' || c == '$'
    ||| c == '#' || c == '&' || c == '-' || c == '~'
}

/// `s` with a backslash before every character that carries a meaning.
pub open spec fn regex_escaped(s: Seq<char>) -> Seq<char>
    decreases s.len(),
{
    if s.len() == 0 {
        s
    } else {
        let head = if is_meta(s[0]) {
            seq!['\\', s[0]]
        } else {
            seq![s[0]]
        };
        head + regex_escaped(s.drop_first())
    }
}

/// `regex::escape`: a backslash goes before every character that carries a meaning.
pub assume_specification[ regex::escape ](pattern: &str) -> (escaped: String)
    ensures
        escaped@ == regex_escaped(pattern@),
;

/// Just these characters carry a meaning, told by their code points; each is written with a
/// backslash before it, and any other as it is.
pub proof fn escaping_marks_what_carries_a_meaning(c: char, s: Seq<char>)
    ensures
        is_meta(c) <==> {
            let n = c as u32;
            n == 0x23 || n == 0x24 || n == 0x26 || 0x28 <= n <= 0x2b || n == 0x2d || n == 0x2e || n
                == 0x3f || 0x5b <= n <= 0x5e || 0x7b <= n <= 0x7e
        },
        is_meta(c) ==> regex_escaped(seq![c] + s) == seq!['\\', c] + regex_escaped(s),
        !is_meta(c) ==> regex_escaped(seq![c] + s) == seq![c] + regex_escaped(s),
        regex_escaped(Seq::empty()) == Seq::<char>::empty(),
{
    assert((seq![c] + s).drop_first() =~= s);
}

} // verus!
