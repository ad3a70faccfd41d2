use vstd::prelude::*;
use vstd::std_specs::iter::IteratorSpec;
use vstd::string::*;

verus! {

/// `c` occurs somewhere in `s`.
pub open spec fn has_char(s: Seq<char>, c: char) -> bool {
    exists|j: int| 0 <= j < s.len() && s[j] == c
}

/// `k` is the position of the first `c` in `s`, or the length of `s` when `c` does not occur.
pub open spec fn is_first_index(s: Seq<char>, c: char, k: int) -> bool {
    &&& 0 <= k <= s.len()
    &&& forall|j: int| 0 <= j < k ==> s[j] != c
    &&& (k == s.len() || s[k] == c)
}

/// `w` is the part of `s` before the first `c`; all of `s` when `c` does not occur.
pub open spec fn is_piece_before(s: Seq<char>, c: char, w: Seq<char>) -> bool {
    &&& is_first_index(s, c, w.len() as int)
    &&& w == s.subrange(0, w.len() as int)
}

/// Position, counted in characters, of the first `c` in `s`, or the number of
/// characters of `s` when `c` does not occur.
pub fn find_char(s: &str, c: char) -> (k: usize)
    ensures
        is_first_index(s@, c, k as int),
{
    let n = s.unicode_len();
    let mut chars = s.chars();
    let mut i: usize = 0;
    loop
        invariant
            n == s@.len(),
            0 <= i <= n,
            chars.obeys_prophetic_iter_laws(),
            chars.remaining() == s@.skip(i as int),
            forall|j: int| 0 <= j < i ==> s@[j] != c,
        decreases n - i,
    {
        match chars.next() {
            Some(ch) => {
                if ch == c {
                    return i;
                }
                i = i + 1;
            },
            None => {
                return i;
            },
        }
    }
}

/// The part of `s` before the first `c`, or the whole of `s` when `c` does not occur.
/// The result borrows from `s`.
pub fn piece_before<'a>(s: &'a str, c: char) -> (r: &'a str)
    ensures
        is_piece_before(s@, c, r@),
{
    let k = find_char(s, c);
    s.substring_char(0, k)
}

/// The first word of `s`: everything before the first space, or the whole of `s`
/// when it holds no space.
pub fn first_word(s: &str) -> (r: &str)
    ensures
        is_piece_before(s@, ' ', r@),
{
    piece_before(s, ' ')
}

/// The same as `first_word`, with the lifetime that elision would give written out:
/// the result lives as long as `s`.
pub fn first_word_pre<'a>(s: &'a str) -> (r: &'a str)
    ensures
        is_piece_before(s@, ' ', r@),
{
    piece_before(s, ' ')
}

/// Splits `text` on `delim` and takes the first piece. Fails with `None` when
/// `delim` does not occur in `text`.
pub fn first_piece<'a>(text: &'a str, delim: char) -> (r: Option<&'a str>)
    ensures
        r is Some <==> has_char(text@, delim),
        r matches Some(w) ==> is_piece_before(text@, delim, w@),
{
    let k = find_char(text, delim);
    if k < text.unicode_len() {
        Some(text.substring_char(0, k))
    } else {
        None
    }
}

} // verus!
