use crate::domain::error::ValidationError;
use crate::domain::text::{is_blank, text_is_blank};
use unicode_segmentation::UnicodeSegmentation;
use vstd::prelude::*;

verus! {

/// The longest name accepted, in grapheme clusters.
pub const MAX_NAME_GRAPHEMES: usize = 256;

/// The number of extended grapheme clusters that the text `s` divides into.
pub uninterp spec fn grapheme_count(s: Seq<char>) -> nat;

/// The characters that no name may hold.
pub open spec fn is_forbidden(c: char) -> bool {
    ||| c == '/'
    ||| c == '('
    ||| c == ')'
    ||| c == '"'
    ||| c == '<'
    ||| c == '>'
    ||| c == '\\'
    ||| c == '{'
    ||| c == '}'
}

/// Whether some character of `s` is forbidden in a name.
pub open spec fn has_forbidden_character(s: Seq<char>) -> bool {
    exists|i: int| 0 <= i < s.len() && is_forbidden(#[trigger] s[i])
}

/// Well-formedness of a name whose text divides into `graphemes` clusters: it is not
/// blank, not longer than the limit, and free of forbidden characters.
pub open spec fn acceptable_name(s: Seq<char>, graphemes: nat) -> bool {
    &&& !is_blank(s)
    &&& graphemes <= MAX_NAME_GRAPHEMES
    &&& !has_forbidden_character(s)
}

/// Well-formedness of a name.
pub open spec fn valid_name(s: Seq<char>) -> bool {
    acceptable_name(s, grapheme_count(s))
}

/// Counts the extended grapheme clusters of `s` by walking the iterator that
/// `unicode_segmentation::UnicodeSegmentation::graphemes` returns for it. The count
/// depends on the text alone; the contract gives it the name `grapheme_count` and
/// claims nothing else of it.
#[verifier::external_body]
fn count_graphemes(s: &str) -> (n: usize)
    ensures
        n == grapheme_count(s@),
{
    s.graphemes(true).count()
}

/// Whether `c` is forbidden in a name.
pub fn char_is_forbidden(c: char) -> (b: bool)
    ensures
        b == is_forbidden(c),
{
    c == '/' || c == '(' || c == ')' || c == '"' || c == '<' || c == '>' || c == '\\' || c == '{'
        || c == '}'
}

proof fn lemma_forbidden_push(s: Seq<char>, c: char)
    ensures
        has_forbidden_character(s.push(c)) == (has_forbidden_character(s) || is_forbidden(c)),
{
    let t = s.push(c);
    if has_forbidden_character(t) {
        let i = choose|i: int| 0 <= i < t.len() && is_forbidden(#[trigger] t[i]);
        if i < s.len() {
            assert(is_forbidden(s[i]));
        }
    }
    if has_forbidden_character(s) {
        let i = choose|i: int| 0 <= i < s.len() && is_forbidden(#[trigger] s[i]);
        assert(is_forbidden(t[i]));
    }
    if is_forbidden(c) {
        assert(is_forbidden(t[s.len() as int]));
    }
}

/// Whether some character of `s` is forbidden in a name.
pub fn text_has_forbidden_character(s: &str) -> (b: bool)
    ensures
        b == has_forbidden_character(s@),
{
    let mut found = false;
    for c in it: s.chars()
        invariant
            it.seq() == s@,
            found == has_forbidden_character(s@.take(it.index() as int)),
    {
        proof {
            let i = it.index() as int;
            assert(s@.take(i + 1) =~= s@.take(i).push(c));
            lemma_forbidden_push(s@.take(i), c);
        }
        if char_is_forbidden(c) {
            found = true;
        }
    }
    assert(s@.take(s@.len() as int) =~= s@);
    found
}

/// Decides on a name from its text and the number of grapheme clusters in it.
pub fn name_is_acceptable(s: &str, graphemes: usize) -> (ok: bool)
    ensures
        ok == acceptable_name(s@, graphemes as nat),
{
    !text_is_blank(s) && graphemes <= MAX_NAME_GRAPHEMES && !text_has_forbidden_character(s)
}

/// A subscriber's name, known to be well-formed.
#[derive(Debug)]
pub struct SubscriberName(String);

impl View for SubscriberName {
    type V = Seq<char>;

    closed spec fn view(&self) -> Seq<char> {
        self.0@
    }
}

impl SubscriberName {
    #[verifier::type_invariant]
    spec fn well_formed(self) -> bool {
        valid_name(self.0@)
    }

    /// The name that wraps the text `s`: what `parse` gives for a well-formed one.
    pub closed spec fn of_text(s: String) -> SubscriberName {
        SubscriberName(s)
    }

    /// Admits `s` as a name exactly when it is well-formed, and keeps its text as given:
    /// nothing is trimmed off. A name that is blank, holds a forbidden character or is
    /// longer than the limit is turned away.
    pub fn parse(s: String) -> (res: Result<SubscriberName, ValidationError>)
        ensures
            is_blank(s@) || has_forbidden_character(s@) || grapheme_count(s@)
                > MAX_NAME_GRAPHEMES ==> res is Err,
            valid_name(s@) ==> res == Ok::<SubscriberName, ValidationError>(Self::of_text(s))
                && res->Ok_0@ == s@,
            !valid_name(s@) ==> res == Err::<SubscriberName, ValidationError>(
                ValidationError::InvalidName,
            ),
    {
        let graphemes = count_graphemes(s.as_str());
        if name_is_acceptable(s.as_str(), graphemes) {
            Ok(SubscriberName(s))
        } else {
            Err(ValidationError::InvalidName)
        }
    }
}

impl Clone for SubscriberName {
    fn clone(&self) -> (res: Self)
        ensures
            res@ == self@,
    {
        proof {
            use_type_invariant(self);
        }
        SubscriberName(self.0.clone())
    }
}

impl AsRef<str> for SubscriberName {
    /// The validated text.
    fn as_ref(&self) -> (text: &str)
        ensures
            text@ == self@,
            valid_name(text@),
    {
        proof {
            use_type_invariant(self);
        }
        self.0.as_str()
    }
}

} // verus!
