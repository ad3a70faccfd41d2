use spans::select::{longest, longest_x};

#[test]
fn longest_picks_longer_first() {
    let string1 = String::from("abcd");
    let string2 = "xyz";
    assert_eq!(longest(string1.as_str(), string2), "abcd");
}

#[test]
fn longest_picks_long_sentence() {
    let string1 = String::from("long string is long");
    let string2 = String::from("xyz");
    assert_eq!(longest(string1.as_str(), string2.as_str()), "long string is long");
}

#[test]
fn longest_picks_longer_second() {
    assert_eq!(longest("xy", "abc"), "abc");
}

#[test]
fn longest_tie_goes_to_second() {
    let a = String::from("abc");
    let b = String::from("xyz");
    let r = longest(a.as_str(), b.as_str());
    assert_eq!(r, "xyz");
    assert!(std::ptr::eq(r, b.as_str()));
}

#[test]
fn longest_counts_bytes_not_chars() {
    // two characters, four bytes, against three one-byte characters
    assert_eq!(longest("\u{e9}\u{e9}", "abc"), "\u{e9}\u{e9}");
    // one two-byte character against two one-byte characters: a tie
    assert_eq!(longest("\u{e9}", "ab"), "ab");
}

#[test]
fn longest_of_empty_spans() {
    assert_eq!(longest("", ""), "");
    assert_eq!(longest("a", ""), "a");
}

#[test]
fn longest_symmetric_when_lengths_differ() {
    let pairs = [("abcd", "xyz"), ("", "q"), ("hello world", "hi")];
    for (a, b) in pairs {
        assert_eq!(longest(a, b), longest(b, a));
    }
}

#[test]
fn longest_len_is_max() {
    let pairs = [("abcd", "xyz"), ("", "q"), ("same", "size"), ("\u{e9}", "abc")];
    for (a, b) in pairs {
        assert_eq!(longest(a, b).len(), a.len().max(b.len()));
    }
}

#[test]
fn longest_with_itself() {
    let a = "abc";
    assert_eq!(longest(a, a), a);
}

#[test]
fn longest_x_returns_first() {
    let x = String::from("x");
    let r;
    {
        let y = String::from("a much longer string");
        r = longest_x(x.as_str(), y.as_str());
    }
    assert_eq!(r, "x");
}
