//! Texts that are still to be put into the user's language.

use vstd::prelude::*;
use vstd::string::*;

verus! {

/// A text by its key, with the values that go into it.
#[derive(Debug, Clone)]
pub struct Phrase {
    /// The key of the text.
    pub key: String,
    /// The values that go into it, by name.
    pub args: Vec<(String, String)>,
}

/// What a [`Phrase`] holds.
#[verifier::ext_equal]
pub struct PhraseView {
    pub key: Seq<char>,
    pub args: Seq<(Seq<char>, Seq<char>)>,
}

impl View for Phrase {
    type V = PhraseView;

    open spec fn view(&self) -> PhraseView {
        PhraseView {
            key: self.key@,
            args: self.args@.map_values(|a: (String, String)| (a.0@, a.1@)),
        }
    }
}

/// The text with this key, without values.
pub open spec fn plain(key: Seq<char>) -> PhraseView {
    PhraseView { key, args: Seq::empty() }
}

/// `phrase` with one more value.
pub open spec fn with(phrase: PhraseView, name: Seq<char>, value: Seq<char>) -> PhraseView {
    PhraseView { key: phrase.key, args: phrase.args.push((name, value)) }
}

impl Phrase {
    /// The text with this key, without values.
    pub fn new(key: &str) -> (phrase: Self)
        ensures
            phrase@ == plain(key@),
    {
        let phrase = Phrase { key: key.to_owned(), args: Vec::new() };
        assert(phrase@.args =~= Seq::empty());
        phrase
    }

    /// The text with one more value.
    pub fn arg(self, name: &str, value: &str) -> (phrase: Self)
        ensures
            phrase@ == with(self@, name@, value@),
    {
        let mut args = self.args;
        args.push((name.to_owned(), value.to_owned()));
        let phrase = Phrase { key: self.key, args };
        assert(phrase@.args =~= self@.args.push((name@, value@)));
        phrase
    }
}

/// A phrase has the key that it is made with and no values; each value that is added comes last,
/// under its name, and leaves the key and the others as they are.
pub proof fn phrases_keep_their_values(
    key: &str,
    name: &str,
    value: &str,
    fresh: Phrase,
    before: Phrase,
    after: Phrase,
)
    requires
        call_ensures(Phrase::new, (key,), fresh),
        call_ensures(Phrase::arg, (before, name, value), after),
    ensures
        fresh@.key == key@ && fresh@.args.len() == 0,
        after@.key == before@.key,
        after@.args.len() == before@.args.len() + 1,
        after@.args.last() == (name@, value@),
        after@.args.drop_last() == before@.args,
{
    assert(after@.args.drop_last() =~= before@.args);
}

} // verus!
