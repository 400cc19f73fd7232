//! String utilities: character-wise reversal, a palindrome test over a
//! normalized form, and a whitespace-delimited word count.
//!
//! All three operate on characters, never on raw bytes, so multi-byte text
//! stays well formed. The Unicode character classes and the lowercase
//! mapping come from std and are named rather than restated: `alphanumeric`,
//! `lowercase_of` and `whitespace` stand for what the std character methods
//! return.

use vstd::prelude::*;
use vstd::string::StrSliceExecFns;

verus! {

/// What `char::is_alphanumeric` returns for a character: whether Unicode
/// classes it as alphabetic or numeric.
pub uninterp spec fn alphanumeric(c: char) -> bool;

/// What `char::to_lowercase` yields for a character: its Unicode lowercase
/// mapping, a sequence because a character may lower to several.
pub uninterp spec fn lowercase_of(c: char) -> Seq<char>;

/// What `char::is_whitespace` returns for a character: whether Unicode
/// classes it as whitespace.
pub uninterp spec fn whitespace(c: char) -> bool;

/// Relies on char::is_alphanumeric: the result depends on the character
/// alone.
#[verifier::external_body]
fn char_is_alphanumeric(c: char) -> (r: bool)
    ensures
        r == alphanumeric(c),
{
    c.is_alphanumeric()
}

/// Relies on char::to_lowercase: the characters yielded depend on the
/// character alone.
#[verifier::external_body]
fn char_lowercase(c: char) -> (r: Vec<char>)
    ensures
        r@ == lowercase_of(c),
{
    c.to_lowercase().collect()
}

/// Relies on char::is_whitespace: the result depends on the character
/// alone.
#[verifier::external_body]
fn char_is_whitespace(c: char) -> (r: bool)
    ensures
        r == whitespace(c),
{
    c.is_whitespace()
}

/// Relies on String::push: appends the given character to the end of the
/// string.
#[verifier::external_body]
fn push_char(s: &mut String, c: char)
    ensures
        final(s)@ == old(s)@.push(c),
{
    s.push(c)
}

/// Reverses a string character by character.
pub fn reverse(s: &str) -> (r: String)
    ensures
        r@ == s@.reverse(),
{
    let n = s.unicode_len();
    let mut r = String::new();
    let mut i: usize = 0;
    while i < n
        invariant
            n == s@.len(),
            i <= n,
            r@.len() == i,
            forall|j: int| 0 <= j < i ==> r@[j] == s@[n - 1 - j],
        decreases n - i,
    {
        let c = s.get_char(n - 1 - i);
        push_char(&mut r, c);
        i = i + 1;
    }
    proof {
        assert(r@ =~= s@.reverse());
    }
    r
}

/// Reversing twice gives back the original sequence of characters, so
/// `reverse` is an involution: `reverse(reverse(s))` has the view of `s`.
pub proof fn lemma_reverse_involution(s: Seq<char>)
    ensures
        s.reverse().reverse() == s,
{
    assert(s.reverse().reverse() =~= s);
}

/// The palindrome normalization: the lowercase mappings of the
/// alphanumeric characters of `s`, in order, everything else dropped.
pub open spec fn normalized(s: Seq<char>) -> Seq<char>
    decreases s.len(),
{
    if s.len() == 0 {
        Seq::<char>::empty()
    } else {
        normalized(s.drop_last()) + (if alphanumeric(s.last()) {
            lowercase_of(s.last())
        } else {
            Seq::<char>::empty()
        })
    }
}

/// Whether a sequence of characters reads the same backwards.
fn chars_are_palindrome(v: &Vec<char>) -> (r: bool)
    ensures
        r == (v@ == v@.reverse()),
{
    let n = v.len();
    let mut i: usize = 0;
    while i < n / 2
        invariant
            n == v@.len(),
            i <= n / 2,
            forall|j: int| 0 <= j < i ==> #[trigger] v@[j] == v@[n - 1 - j],
        decreases n / 2 - i,
    {
        if v[i] != v[n - 1 - i] {
            proof {
                assert(v@.reverse()[i as int] == v@[n - 1 - i]);
            }
            return false;
        }
        i = i + 1;
    }
    proof {
        assert forall|j: int| 0 <= j < n implies #[trigger] v@[j] == v@[n - 1 - j] by {
            if j >= n / 2 && n - 1 - j < n / 2 {
                assert(v@[n - 1 - j] == v@[n - 1 - (n - 1 - j)]);
            }
        }
        assert(v@ =~= v@.reverse());
    }
    true
}

/// Checks if a string is a palindrome: true iff its normalized form (only
/// alphanumeric characters, lowercased) equals its own reverse. An empty
/// normalized form counts as a palindrome.
pub fn is_palindrome(s: &str) -> (r: bool)
    ensures
        r == (normalized(s@) == normalized(s@).reverse()),
{
    let n = s.unicode_len();
    let mut cleaned: Vec<char> = Vec::new();
    let mut i: usize = 0;
    while i < n
        invariant
            n == s@.len(),
            i <= n,
            cleaned@ == normalized(s@.subrange(0, i as int)),
        decreases n - i,
    {
        let c = s.get_char(i);
        if char_is_alphanumeric(c) {
            let mut low = char_lowercase(c);
            cleaned.append(&mut low);
        }
        proof {
            assert(s@.subrange(0, i + 1).drop_last() =~= s@.subrange(0, i as int));
            assert(cleaned@ =~= normalized(s@.subrange(0, i + 1)));
        }
        i = i + 1;
    }
    proof {
        assert(s@.subrange(0, n as int) =~= s@);
    }
    chars_are_palindrome(&cleaned)
}

/// The number of words still ahead of position `i`, where `gap` says
/// whether the scan stands at the start or just after a whitespace
/// character. A word begins at each non-whitespace character that follows
/// such a gap.
pub open spec fn words_from(s: Seq<char>, i: int, gap: bool) -> nat
    decreases s.len() - i,
{
    if i < 0 || i >= s.len() {
        0
    } else {
        (if gap && !whitespace(s[i]) {
            1nat
        } else {
            0nat
        }) + words_from(s, i + 1, whitespace(s[i]))
    }
}

/// The number of maximal runs of non-whitespace characters in `s`.
pub open spec fn word_count_spec(s: Seq<char>) -> nat {
    words_from(s, 0, true)
}

/// Counts words in a string: the maximal runs of non-whitespace
/// characters. Leading, trailing and repeated whitespace contribute no
/// words.
pub fn word_count(s: &str) -> (r: usize)
    ensures
        r == word_count_spec(s@),
{
    let n = s.unicode_len();
    let mut count: usize = 0;
    let mut gap: bool = true;
    let mut i: usize = 0;
    while i < n
        invariant
            n == s@.len(),
            i <= n,
            count <= i,
            word_count_spec(s@) == count + words_from(s@, i as int, gap),
        decreases n - i,
    {
        let c = s.get_char(i);
        let ws = char_is_whitespace(c);
        if gap && !ws {
            count = count + 1;
        }
        gap = ws;
        i = i + 1;
    }
    count
}

} // verus!
