use vstd::prelude::*;
use vstd::utf8::is_ascii_chars;

verus! {

/// Whether the two texts hold the same characters in the same order.
pub fn same_text(a: &str, b: &str) -> (r: bool)
    ensures
        r == (a@ == b@),
{
    let n = a.unicode_len();
    if n != b.unicode_len() {
        return false;
    }
    let mut i: usize = 0;
    while i < n
        invariant
            n == a@.len(),
            n == b@.len(),
            i <= n,
            forall|j: int| 0 <= j < i ==> a@[j] == b@[j],
        decreases n - i,
    {
        if a.get_char(i) != b.get_char(i) {
            return false;
        }
        i = i + 1;
    }
    assert(a@ =~= b@);
    true
}

/// Whether the text begins with the character `c`.
pub fn starts_with_char(s: &str, c: char) -> (r: bool)
    ensures
        r == (s@.len() > 0 && s@[0] == c),
{
    s.unicode_len() > 0 && s.get_char(0) == c
}

/// The character `c` with an ASCII upper-case letter turned into its
/// lower-case letter.
pub open spec fn ascii_lower_char(c: char) -> char {
    if 'A' <= c && c <= 'Z' {
        ((c as int) + 32) as char
    } else {
        c
    }
}

/// The text with each ASCII upper-case letter turned into its lower-case letter.
pub open spec fn ascii_lowercase(s: Seq<char>) -> Seq<char> {
    s.map_values(|c: char| ascii_lower_char(c))
}

/// What std's `str::to_lowercase` gives back for the text `s`: its lower-case
/// form under Unicode's rules, which take many pages to state.
pub uninterp spec fn spec_to_lowercase(s: Seq<char>) -> Seq<char>;

/// Lower-cases `s` with std's `str::to_lowercase`.
///
/// The contract names the result `spec_to_lowercase(s)`, and states the one
/// fact that callers need: on a text of ASCII characters only, Unicode's
/// lower-case mapping is the ASCII one, which turns `A`..`Z` into `a`..`z`
/// and leaves every other character as it is. What it does to other
/// characters is left unsaid.
#[verifier::external_body]
pub(crate) fn to_lowercase(s: &str) -> (r: String)
    ensures
        r@ == spec_to_lowercase(s@),
        is_ascii_chars(s@) ==> r@ == ascii_lowercase(s@),
{
    s.to_lowercase()
}

} // verus!
