//! Text handling for the inline pipeline: the whitespace classification
//! that decides whether a text node is pruned from the box tree, and the
//! newline collapsing applied to text as it joins a text run.

use vstd::prelude::*;
use vstd::string::StrSliceExecFns;

verus! {

/// The whitespace characters of the markup language: tab, line feed, form
/// feed, carriage return and space.
pub open spec fn spec_is_space(c: char) -> bool {
    c == ' ' || c == '\t' || c == '\n' || c == '\r' || c == '\u{000C}'
}

/// Whether `c` is a markup whitespace character.
pub fn is_space(c: char) -> (r: bool)
    ensures
        r == spec_is_space(c),
{
    c == ' ' || c == '\t' || c == '\n' || c == '\r' || c == '\u{000C}'
}

/// A character sequence is whitespace-only when every character in it is
/// whitespace; the empty sequence is whitespace-only.
pub open spec fn spec_ws_only(s: Seq<char>) -> bool {
    forall|i: int| 0 <= i < s.len() ==> spec_is_space(s[i])
}

/// Whether the trimmed content of `s` is empty, that is, whether `s` holds
/// nothing but whitespace.
pub fn is_whitespace_only(s: &str) -> (r: bool)
    ensures
        r == spec_ws_only(s@),
{
    let n = s.unicode_len();
    let mut i: usize = 0;
    while i < n
        invariant
            i <= n,
            n == s@.len(),
            forall|j: int| 0 <= j < i ==> spec_is_space(s@[j]),
        decreases n - i,
    {
        if !is_space(s.get_char(i)) {
            return false;
        }
        i = i + 1;
    }
    true
}

/// `s` with every line feed replaced by a space; all other characters kept.
pub open spec fn spec_collapsed(s: Seq<char>) -> Seq<char> {
    s.map_values(|c: char| if c == '\n' { ' ' } else { c })
}

/// Relies on `String::push`: appends the given character to the end of the
/// string.
#[verifier::external_body]
fn push_char(s: &mut String, c: char)
    ensures
        final(s)@ == old(s)@.push(c),
{
    s.push(c)
}

/// Replace every line feed in `s` with a space, keeping all other
/// characters: text joining a text run has its newlines collapsed.
pub fn collapse_newlines(s: &str) -> (r: String)
    ensures
        r@ == spec_collapsed(s@),
{
    let mut r = String::new();
    let n = s.unicode_len();
    let mut i: usize = 0;
    while i < n
        invariant
            i <= n,
            n == s@.len(),
            r@ == spec_collapsed(s@.take(i as int)),
        decreases n - i,
    {
        let c = s.get_char(i);
        let c2 = if c == '\n' {
            ' '
        } else {
            c
        };
        push_char(&mut r, c2);
        proof {
            assert(spec_collapsed(s@.take(i + 1 as int)) =~= spec_collapsed(
                s@.take(i as int),
            ).push(c2));
        }
        i = i + 1;
    }
    proof {
        assert(s@.take(s@.len() as int) =~= s@);
    }
    r
}

} // verus!
