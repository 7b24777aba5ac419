//! Splitting a text into lines.
use vstd::prelude::*;

verus! {

/// The pieces of `s` between newline characters, in order; a text with `k`
/// newlines has `k + 1` pieces, the last of them not terminated.
pub open spec fn newline_pieces(s: Seq<char>) -> Seq<Seq<char>>
    decreases s.len(),
{
    if s.len() == 0 {
        seq![Seq::<char>::empty()]
    } else {
        let rest = newline_pieces(s.drop_last());
        if s.last() == '\n' {
            rest.push(Seq::<char>::empty())
        } else {
            rest.update(rest.len() - 1, rest.last().push(s.last()))
        }
    }
}

/// A line terminated by a newline loses one carriage return before it.
pub open spec fn strip_carriage_return(l: Seq<char>) -> Seq<char> {
    if l.len() > 0 && l.last() == '\r' {
        l.drop_last()
    } else {
        l
    }
}

/// The lines of a text: split at `"\n"` or `"\r\n"`; the final line ending is
/// optional, so a trailing newline adds no empty line, and an empty text has
/// no lines. A carriage return that no newline follows stays in its line.
pub open spec fn text_lines(s: Seq<char>) -> Seq<Seq<char>> {
    let pieces = newline_pieces(s);
    let n = if pieces.last().len() == 0 {
        pieces.len() - 1
    } else {
        pieces.len() as int
    };
    Seq::new(
        n as nat,
        |i: int|
            if i < pieces.len() - 1 {
                strip_carriage_return(pieces[i])
            } else {
                pieces[i]
            },
    )
}

/// Relies on `str::lines`: the lines of `text` as `text_lines` describes
/// them, each copied into a `String`.
#[verifier::external_body]
pub(crate) fn split_lines(text: &str) -> (r: Vec<String>)
    ensures
        r@.len() == text_lines(text@).len(),
        forall|i: int| 0 <= i < r@.len() ==> #[trigger] r@[i]@ == text_lines(text@)[i],
{
    text.lines().map(String::from).collect()
}

} // verus!
