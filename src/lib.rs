/// Borrowed records of text: a span taken from a larger text.
pub mod excerpt;
/// Choosing between two borrowed spans by length.
pub mod select;
/// Finding the piece of a span before a given character.
pub mod words;
