use crate::domain::error::ValidationError;
use crate::domain::text::{char_is_whitespace, has_whitespace, is_whitespace};
use vstd::prelude::*;

verus! {

/// `at` is the place of the one and only `@` in `s`.
pub open spec fn is_only_at(s: Seq<char>, at: int) -> bool {
    &&& 0 <= at < s.len()
    &&& s[at] == '@'
    &&& forall|j: int| 0 <= j < s.len() && #[trigger] s[j] == '@' ==> j == at
}

/// Whether `s` holds exactly one `@`.
pub open spec fn has_single_at(s: Seq<char>) -> bool {
    exists|at: int| is_only_at(s, at)
}

/// Where the `@` of `s` stands, for an `s` that holds exactly one.
pub open spec fn at_position(s: Seq<char>) -> int {
    choose|at: int| is_only_at(s, at)
}

/// What precedes the `@`.
pub open spec fn local_part(s: Seq<char>) -> Seq<char> {
    s.take(at_position(s))
}

/// What follows the `@`.
pub open spec fn domain_part(s: Seq<char>) -> Seq<char> {
    s.skip(at_position(s) + 1)
}

/// The address grammar: one `@` that parts a local part, which is not empty, from a
/// domain, which holds a `.`; and no whitespace anywhere.
pub open spec fn valid_email(s: Seq<char>) -> bool {
    &&& has_single_at(s)
    &&& local_part(s).len() > 0
    &&& domain_part(s).contains('.')
    &&& !has_whitespace(s)
}

/// Whether a `.` stands among the first `n` characters of `s`, behind the place `at`.
spec fn dot_follows(s: Seq<char>, at: int, n: int) -> bool {
    exists|k: int| at < k < n && #[trigger] s[k] == '.'
}

/// Whether a whitespace character stands among the first `n` characters of `s`.
spec fn whitespace_within(s: Seq<char>, n: int) -> bool {
    exists|k: int| 0 <= k < n && is_whitespace(#[trigger] s[k])
}

/// Whether the first `n` characters of `s` hold no `@`.
spec fn no_at_within(s: Seq<char>, n: int) -> bool {
    forall|j: int| 0 <= j < n ==> #[trigger] s[j] != '@'
}

/// Whether the first `n` characters of `s` hold one `@` and no more, at `at`.
spec fn only_at_within(s: Seq<char>, at: int, n: int) -> bool {
    &&& 0 <= at < n
    &&& s[at] == '@'
    &&& forall|j: int| 0 <= j < n && #[trigger] s[j] == '@' ==> j == at
}

/// Whether the first `n` characters of `s` hold two `@` or more.
spec fn two_ats_within(s: Seq<char>, n: int) -> bool {
    exists|a: int, b: int| 0 <= a < b < n && #[trigger] s[a] == '@' && #[trigger] s[b] == '@'
}

/// What a scan knows of the first `n` characters of `s`: `ats` counts the `@` among
/// them, up to two; where there is one, it stands at `at`, `local_nonempty` says
/// whether anything precedes it and `dot` whether a `.` follows it; `space` says
/// whether there is whitespace.
spec fn scanned(
    s: Seq<char>,
    n: int,
    ats: int,
    at: int,
    local_nonempty: bool,
    dot: bool,
    space: bool,
) -> bool {
    &&& 0 <= n <= s.len()
    &&& 0 <= ats <= 2
    &&& ats == 0 ==> no_at_within(s, n) && !dot
    &&& ats == 1 ==> only_at_within(s, at, n) && local_nonempty == (at > 0) && dot
        == dot_follows(s, at, n)
    &&& ats == 2 ==> two_ats_within(s, n)
    &&& space == whitespace_within(s, n)
}

/// One character further: how the findings change with the character at `n`.
proof fn lemma_scan_step(
    s: Seq<char>,
    n: int,
    ats: int,
    at: int,
    local_nonempty: bool,
    dot: bool,
    space: bool,
)
    requires
        scanned(s, n, ats, at, local_nonempty, dot, space),
        n < s.len(),
    ensures
        s[n] == '@' && ats == 0 ==> scanned(s, n + 1, 1, n, n > 0, false, space),
        s[n] == '@' && ats > 0 ==> scanned(s, n + 1, 2, at, local_nonempty, dot, space),
        s[n] != '@' ==> scanned(
            s,
            n + 1,
            ats,
            at,
            local_nonempty,
            dot || (ats == 1 && s[n] == '.'),
            space || is_whitespace(s[n]),
        ),
{
    assert(whitespace_within(s, n + 1) == (whitespace_within(s, n) || is_whitespace(s[n]))) by {
        if whitespace_within(s, n) {
            let k = choose|k: int| 0 <= k < n && is_whitespace(#[trigger] s[k]);
            assert(is_whitespace(s[k]));
        }
        if whitespace_within(s, n + 1) {
            let k = choose|k: int| 0 <= k < n + 1 && is_whitespace(#[trigger] s[k]);
            assert(k < n || k == n);
        }
    }
    assert(!is_whitespace('@'));
    if ats == 2 {
        let (a, b) = choose|a: int, b: int|
            0 <= a < b < n && #[trigger] s[a] == '@' && #[trigger] s[b] == '@';
        assert(s[a] == '@' && s[b] == '@');
    }
    if ats == 1 {
        assert(dot_follows(s, at, n + 1) == (dot_follows(s, at, n) || s[n] == '.')) by {
            if dot_follows(s, at, n) {
                let k = choose|k: int| at < k < n && #[trigger] s[k] == '.';
                assert(s[k] == '.');
            }
            if dot_follows(s, at, n + 1) {
                let k = choose|k: int| at < k < n + 1 && #[trigger] s[k] == '.';
                assert(k < n || k == n);
            }
        }
        if s[n] == '@' {
            assert(s[at] == '@' && s[n] == '@');
        }
    }
}

/// At the end of the text the findings decide the grammar.
proof fn lemma_scan_decides(
    s: Seq<char>,
    ats: int,
    at: int,
    local_nonempty: bool,
    dot: bool,
    space: bool,
)
    requires
        scanned(s, s.len() as int, ats, at, local_nonempty, dot, space),
    ensures
        valid_email(s) == (ats == 1 && local_nonempty && dot && !space),
{
    assert(space == has_whitespace(s));
    if ats == 0 {
        if has_single_at(s) {
            let w = choose|w: int| is_only_at(s, w);
            assert(s[w] == '@');
        }
    } else if ats == 2 {
        let (a, b) = choose|a: int, b: int|
            0 <= a < b < s.len() && #[trigger] s[a] == '@' && #[trigger] s[b] == '@';
        if has_single_at(s) {
            let w = choose|w: int| is_only_at(s, w);
            assert(s[a] == '@' && s[b] == '@');
        }
    } else {
        assert(is_only_at(s, at));
        assert(s[at] == '@');
        assert(at_position(s) == at);
        let d = domain_part(s);
        if dot {
            let k = choose|k: int| at < k < s.len() && #[trigger] s[k] == '.';
            assert(d[k - at - 1] == '.');
        }
        if d.contains('.') {
            let i = choose|i: int| 0 <= i < d.len() && d[i] == '.';
            assert(s[i + at + 1] == '.');
        }
    }
}

/// Whether `s` follows the address grammar. One pass over the characters.
pub fn email_is_valid(s: &str) -> (ok: bool)
    ensures
        ok == valid_email(s@),
{
    let mut ats: u8 = 0;
    let mut seen_any = false;
    let mut local_nonempty = false;
    let mut dot = false;
    let mut space = false;
    let ghost mut at: int = 0;
    for c in it: s.chars()
        invariant
            it.seq() == s@,
            seen_any == (it.index() > 0),
            scanned(s@, it.index() as int, ats as int, at, local_nonempty, dot, space),
    {
        proof {
            lemma_scan_step(s@, it.index() as int, ats as int, at, local_nonempty, dot, space);
        }
        if c == '@' {
            if ats == 0 {
                ats = 1;
                local_nonempty = seen_any;
                proof {
                    at = it.index() as int;
                }
            } else {
                ats = 2;
            }
        } else {
            if c == '.' && ats == 1 {
                dot = true;
            }
            if char_is_whitespace(c) {
                space = true;
            }
        }
        seen_any = true;
    }
    proof {
        lemma_scan_decides(s@, ats as int, at, local_nonempty, dot, space);
    }
    ats == 1 && local_nonempty && dot && !space
}

/// A subscriber's email address, known to follow the address grammar.
#[derive(Debug)]
pub struct SubscriberEmail(String);

impl View for SubscriberEmail {
    type V = Seq<char>;

    closed spec fn view(&self) -> Seq<char> {
        self.0@
    }
}

impl SubscriberEmail {
    #[verifier::type_invariant]
    spec fn well_formed(self) -> bool {
        valid_email(self.0@)
    }

    /// The address that wraps the text `s`: what `parse` gives for a well-formed one.
    pub closed spec fn of_text(s: String) -> SubscriberEmail {
        SubscriberEmail(s)
    }

    /// Admits `s` as an address exactly when it follows the grammar, and keeps its text
    /// as given. The check is on the text alone: no name is resolved, no mailbox asked.
    pub fn parse(s: String) -> (res: Result<SubscriberEmail, ValidationError>)
        ensures
            !has_single_at(s@) || !domain_part(s@).contains('.') ==> res is Err,
            valid_email(s@) ==> res == Ok::<SubscriberEmail, ValidationError>(Self::of_text(s))
                && res->Ok_0@ == s@,
            !valid_email(s@) ==> res == Err::<SubscriberEmail, ValidationError>(
                ValidationError::InvalidEmail,
            ),
    {
        if email_is_valid(s.as_str()) {
            Ok(SubscriberEmail(s))
        } else {
            Err(ValidationError::InvalidEmail)
        }
    }
}

impl AsRef<str> for SubscriberEmail {
    /// The validated text.
    fn as_ref(&self) -> (text: &str)
        ensures
            text@ == self@,
            valid_email(text@),
    {
        proof {
            use_type_invariant(self);
        }
        self.0.as_str()
    }
}

impl Clone for SubscriberEmail {
    fn clone(&self) -> (res: Self)
        ensures
            res@ == self@,
    {
        proof {
            use_type_invariant(self);
        }
        SubscriberEmail(self.0.clone())
    }
}

} // verus!
