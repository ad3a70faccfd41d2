use vstd::prelude::*;

use crate::words::{first_piece, has_char, is_piece_before};

verus! {

/// A record that borrows one span of text owned elsewhere; it lives no longer
/// than that text.
#[derive(Debug)]
pub struct ImportantExcerpt<'a> {
    pub part: &'a str,
}

impl<'a> ImportantExcerpt<'a> {
    /// The importance level of every excerpt.
    pub fn level(&self) -> (r: i32)
        ensures
            r == 3,
    {
        3
    }

    /// The excerpt made of the first sentence of `text`, the part before the
    /// first `'.'`. `None` when `text` holds no `'.'`.
    pub fn first_sentence(text: &'a str) -> (r: Option<ImportantExcerpt<'a>>)
        ensures
            r is Some <==> has_char(text@, '.'),
            r matches Some(e) ==> is_piece_before(text@, '.', e.part@),
    {
        match first_piece(text, '.') {
            Some(part) => Some(ImportantExcerpt { part }),
            None => None,
        }
    }
}

} // verus!
