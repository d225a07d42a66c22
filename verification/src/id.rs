//! Identifiers: the names of graphs and nodes in the output.

use crate::escape::{esc_text, is_kept, lemma_kept_text, plain_text};
use vstd::prelude::*;

verus! {

/// `c` is a letter of the ASCII alphabet or an underscore.
pub open spec fn is_letter_or_underscore(c: char) -> bool {
    ('a' <= c && c <= 'z') || ('A' <= c && c <= 'Z') || c == '_'
}

/// `c` may stand anywhere in an identifier but at its start: a letter, an
/// underscore or a decimal digit.
pub open spec fn is_constituent(c: char) -> bool {
    is_letter_or_underscore(c) || ('0' <= c && c <= '9')
}

/// `s` is an identifier: it is not empty, it starts with a letter or an
/// underscore, and it holds only letters, digits and underscores. These are
/// the texts that match `[a-zA-Z_][a-zA-Z_0-9]*`.
pub open spec fn is_identifier(s: Seq<char>) -> bool {
    &&& s.len() > 0
    &&& is_letter_or_underscore(s[0])
    &&& forall|i: int| 0 <= i < s.len() ==> is_constituent(#[trigger] s[i])
}

/// `c` is a round, square, curly or angle bracket.
pub open spec fn is_bracket(c: char) -> bool {
    c == '(' || c == ')' || c == '[' || c == ']' || c == '{' || c == '}' || c == '<' || c == '>'
}

/// A text that holds a space or a bracket, or that starts with a digit, is
/// no identifier.
pub proof fn lemma_not_an_identifier(t: Seq<char>)
    requires
        ({
            ||| t.contains(' ')
            ||| exists|i: int| 0 <= i < t.len() && is_bracket(#[trigger] t[i])
            ||| t.len() > 0 && '0' <= t[0] && t[0] <= '9'
        }),
    ensures
        !is_identifier(t),
{
    if t.contains(' ') {
        let i = choose|i: int| 0 <= i < t.len() && t[i] == ' ';
        assert(!is_constituent(t[i]));
    } else if exists|i: int| 0 <= i < t.len() && is_bracket(#[trigger] t[i]) {
        let i = choose|i: int| 0 <= i < t.len() && is_bracket(#[trigger] t[i]);
        assert(!is_constituent(t[i]));
    } else {
        assert(!is_letter_or_underscore(t[0]));
    }
}

/// An identifier needs no escaping: as the text of a label it is written as
/// it is, in either mode.
pub proof fn lemma_identifier_is_kept(id: Seq<char>)
    requires
        is_identifier(id),
    ensures
        plain_text(id) == id,
        esc_text(id) == id,
{
    assert forall|i: int| 0 <= i < id.len() implies is_kept(#[trigger] id[i]) by {
        assert(is_constituent(id[i]));
    }
    lemma_kept_text(id);
}

/// The executable form of `is_letter_or_underscore`.
fn letter_or_underscore(c: char) -> (b: bool)
    ensures
        b == is_letter_or_underscore(c),
{
    ('a' <= c && c <= 'z') || ('A' <= c && c <= 'Z') || c == '_'
}

/// The executable form of `is_constituent`.
fn constituent(c: char) -> (b: bool)
    ensures
        b == is_constituent(c),
{
    letter_or_underscore(c) || ('0' <= c && c <= '9')
}

/// An identifier of the DOT language, in the restricted form that
/// `is_identifier` describes. Every `Id` holds such a text.
pub struct Id {
    name: String,
}

impl View for Id {
    type V = Seq<char>;

    closed spec fn view(&self) -> Seq<char> {
        self.name@
    }
}

impl Id {
    #[verifier::type_invariant]
    closed spec fn valid(&self) -> bool {
        is_identifier(self.name@)
    }

    /// Creates an `Id` named `name`, if `name` is an identifier.
    ///
    /// Any other text (one with spaces, brackets or quotes in it, one that
    /// starts with a digit, the empty text) is refused with `Err(())`.
    pub fn new(name: &str) -> (r: Result<Id, ()>)
        ensures
            is_identifier(name@) <==> r is Ok,
            r matches Ok(id) ==> id@ == name@,
    {
        let mut first = true;
        for c in it: name.chars()
            invariant
                it.seq() == name@,
                first == (it.index() == 0),
                it.index() > 0 ==> is_letter_or_underscore(name@[0]),
                forall|i: int| 0 <= i < it.index() ==> is_constituent(#[trigger] name@[i]),
        {
            if first {
                if !letter_or_underscore(c) {
                    return Err(());
                }
                first = false;
            } else if !constituent(c) {
                return Err(());
            }
        }
        if first {
            return Err(());
        }
        Ok(Id { name: name.to_owned() })
    }

    /// The identifier's text.
    pub fn as_slice(&self) -> (s: &str)
        ensures
            s@ == self@,
            is_identifier(s@),
    {
        proof {
            use_type_invariant(self);
        }
        self.name.as_str()
    }

    /// Gives up the identifier for its text.
    pub fn name(self) -> (s: String)
        ensures
            s@ == self@,
            is_identifier(s@),
    {
        proof {
            use_type_invariant(&self);
        }
        self.name
    }
}

} // verus!
