//! Helpers for answers typed on the command line.

use vstd::prelude::*;

verus! {

/// `text` without its last character where that character is `c`.
pub open spec fn without_last(text: Seq<char>, c: char) -> Seq<char> {
    if text.len() > 0 && text.last() == c {
        text.drop_last()
    } else {
        text
    }
}

/// A typed answer without its line ending: a trailing `\n`, then a trailing
/// `\r`, are removed.
pub open spec fn answer_text(line: Seq<char>) -> Seq<char> {
    without_last(without_last(line, '\n'), '\r')
}

/// A character at the end of a text is removed, whatever the text's length,
/// and a text that ends otherwise is kept whole.
pub proof fn without_last_removes_trailing(text: Seq<char>, c: char, d: char)
    ensures
        without_last(text.push(c), c) == text,
        d != c ==> without_last(text.push(d), c) == text.push(d),
        without_last(Seq::empty(), c) == Seq::<char>::empty(),
{
    assert(text.push(c).drop_last() =~= text);
}

/// An answer typed with a `\n` or `\r\n` line ending is the text before it,
/// whatever its length, and a text without line ending is kept whole.
pub proof fn answer_drops_line_ending(text: Seq<char>)
    ensures
        answer_text(text.push('\r').push('\n')) == text,
        answer_text(text.push('\n')) == without_last(text, '\r'),
        (text.len() == 0 || (text.last() != '\n' && text.last() != '\r')) ==> answer_text(text)
            == text,
{
    assert(text.push('\r').push('\n').drop_last() =~= text.push('\r'));
    assert(text.push('\r').drop_last() =~= text);
    assert(text.push('\n').drop_last() =~= text);
}

/// Removes `c` from the end of `text` where it ends with it.
fn strip_last(text: &str, c: char) -> (res: String)
    ensures
        res@ == without_last(text@, c),
{
    let n = text.unicode_len();
    if n > 0 && text.get_char(n - 1) == c {
        let kept = text.substring_char(0, n - 1);
        assert(kept@ =~= text@.drop_last());
        String::from_str(kept)
    } else {
        String::from_str(text)
    }
}

/// The answer that a line read from the terminal holds.
pub fn strip_line_ending(line: &str) -> (answer: String)
    ensures
        answer@ == answer_text(line@),
{
    let once = strip_last(line, '\n');
    strip_last(once.as_str(), '\r')
}

} // verus!
