use vstd::prelude::*;

verus! {

/// The longer of two spans by `str::len`, the count of UTF-8 bytes; on a tie, the second one.
pub open spec fn longer<'a>(x: &'a str, y: &'a str) -> &'a str {
    if x.len() > y.len() {
        x
    } else {
        y
    }
}

/// Returns whichever of `x` and `y` is longer in bytes, `y` when they are equally long.
/// The result borrows from both inputs, so it lives no longer than the shorter-lived one.
pub fn longest<'a>(x: &'a str, y: &'a str) -> (r: &'a str)
    ensures
        r == longer(x, y),
{
    if x.len() > y.len() {
        x
    } else {
        y
    }
}

/// Returns `x`, ignoring `y`. The result borrows from `x` alone, so `y` may be
/// dropped before the result is.
pub fn longest_x<'a>(x: &'a str, y: &str) -> (r: &'a str)
    ensures
        r == x,
{
    x
}

/// When the two spans differ in byte length, the order of the arguments does not
/// matter: the longer one is chosen either way.
pub proof fn lemma_longer_symmetric(a: &str, b: &str)
    requires
        a.len() != b.len(),
    ensures
        longer(a, b) == longer(b, a),
{
}

/// The chosen span is as long as the longer of the two.
pub proof fn lemma_longer_len(a: &str, b: &str)
    ensures
        longer(a, b).len() == vstd::math::max(a.len() as int, b.len() as int),
{
}

/// Choosing between a span and itself gives that span back.
pub proof fn lemma_longer_idempotent(a: &str)
    ensures
        longer(a, a) == a,
{
}

} // verus!
