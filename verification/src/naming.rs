//! Names of generated components: `snake_case` function names become
//! `PascalCase` component names.

use vstd::prelude::*;
use vstd::string::*;

verus! {

/// The uppercase expansion of a character, as a sequence: one character may
/// expand to several (the German sharp s expands to two letters).
pub uninterp spec fn uppercase_of(c: char) -> Seq<char>;

/// Number of characters before the first underscore of `s`, or its length if it has none.
pub open spec fn first_word_len(s: Seq<char>) -> nat
    decreases s.len(),
{
    if s.len() == 0 || s[0] == '_' {
        0
    } else {
        1 + first_word_len(s.skip(1))
    }
}

/// `word` with `initial` in place of its first character; the empty word stays empty.
pub open spec fn with_initial_spec(word: Seq<char>, initial: Seq<char>) -> Seq<char> {
    if word.len() == 0 {
        word
    } else {
        initial + word.skip(1)
    }
}

/// `word` with its first character replaced by that character's uppercase expansion.
pub open spec fn capitalized(word: Seq<char>) -> Seq<char> {
    if word.len() == 0 {
        word
    } else {
        with_initial_spec(word, uppercase_of(word[0]))
    }
}

/// The words of `s` between underscores, each capitalized, joined without a separator.
pub open spec fn pascal_case(s: Seq<char>) -> Seq<char>
    decreases s.len(),
{
    let w = first_word_len(s);
    if w >= s.len() {
        capitalized(s)
    } else {
        capitalized(s.take(w as int)) + pascal_case(s.skip(w as int + 1))
    }
}

/// `first_word_len` is the position of the first underscore.
pub proof fn lemma_first_word_len(s: Seq<char>, k: int)
    requires
        0 <= k <= s.len(),
        forall|i: int| 0 <= i < k ==> s[i] != '_',
        k < s.len() ==> s[k] == '_',
    ensures
        first_word_len(s) == k,
    decreases k,
{
    if k > 0 {
        let rest = s.skip(1);
        assert forall|i: int| 0 <= i < k - 1 implies rest[i] != '_' by {
            assert(rest[i] == s[i + 1]);
        }
        lemma_first_word_len(rest, k - 1);
    }
}

/// The uppercase expansion of `c`, by `char::to_uppercase` of the standard library.
/// The contract only names the result: it is a function of `c` alone, fixed by the
/// Unicode tables that the standard library carries.
#[verifier::external_body]
fn char_to_uppercase(c: char) -> (upper: String)
    ensures
        upper@ == uppercase_of(c),
{
    c.to_uppercase().collect()
}

/// Replaces the first character of `word` by `initial`. An empty word stays empty.
pub fn with_initial(word: &str, initial: &str) -> (out: String)
    ensures
        out@ == with_initial_spec(word@, initial@),
{
    let n: usize = word.unicode_len();
    if n == 0 {
        String::new()
    } else {
        let mut out = initial.to_owned();
        out.append(word.substring_char(1, n));
        out
    }
}

/// Position of the first underscore of `s` at or after `start`, or the length of `s`.
fn word_end(s: &str, start: usize, n: usize) -> (end: usize)
    requires
        n == s@.len(),
        start <= n,
    ensures
        start <= end <= n,
        end - start == first_word_len(s@.skip(start as int)),
{
    let mut end: usize = start;
    while end < n && s.get_char(end) != '_'
        invariant
            n == s@.len(),
            start <= end <= n,
            forall|i: int| start <= i < end ==> s@[i] != '_',
        decreases n - end,
    {
        end = end + 1;
    }
    proof {
        lemma_first_word_len(s@.skip(start as int), end - start);
    }
    end
}

/// Converts a `snake_case` name to `PascalCase`: the name is cut at every
/// underscore, the first character of each piece is replaced by its uppercase
/// expansion, and the pieces are joined. Empty pieces vanish.
pub fn to_pascal_case(s: &str) -> (out: String)
    ensures
        out@ == pascal_case(s@),
{
    let n: usize = s.unicode_len();
    let mut out = String::new();
    let mut start: usize = 0;
    assert(s@.skip(0) =~= s@);
    loop
        invariant_except_break
            start <= n,
            out@ + pascal_case(s@.skip(start as int)) == pascal_case(s@),
        invariant
            n == s@.len(),
        ensures
            out@ == pascal_case(s@),
        decreases n - start,
    {
        let ghost rest = s@.skip(start as int);
        let ghost before = out@;
        let end: usize = word_end(s, start, n);
        let word = s.substring_char(start, end);
        if start < end {
            let upper = char_to_uppercase(s.get_char(start));
            let piece = with_initial(word, upper.as_str());
            out.append(piece.as_str());
        }
        assert(out@ == before + capitalized(word@));
        if end >= n {
            break ;
        }
        assert(rest.skip(end - start + 1) =~= s@.skip(end + 1));
        assert(before + (capitalized(word@) + pascal_case(s@.skip(end + 1))) =~= (before
            + capitalized(word@)) + pascal_case(s@.skip(end + 1)));
        start = end + 1;
    }
    out
}

} // verus!
