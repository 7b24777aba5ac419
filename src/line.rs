//! Line records and the positional alignment of two texts.
use vstd::prelude::*;
use itertools::EitherOrBoth;
use itertools::Itertools;
use crate::text::{split_lines, text_lines};

verus! {

/// The outcome of comparing the two texts at one line position.
#[derive(PartialEq, Eq, Debug)]
pub enum Line {
    /// Both texts hold this same line here: `MatchedLine(position, line)`.
    MatchedLine(usize, String),
    /// The lines here differ, or one text has no line here (`None`):
    /// `DifferingLine(position, left_line, right_line)`.
    DifferingLine(usize, Option<String>, Option<String>),
}

/// What a `Line` means: its 1-based position and the characters it holds.
pub enum LineModel {
    Matched { position: nat, text: Seq<char> },
    Differing { position: nat, left: Option<Seq<char>>, right: Option<Seq<char>> },
}

/// The characters of an optional line.
pub open spec fn option_view(o: Option<String>) -> Option<Seq<char>> {
    match o {
        Some(s) => Some(s@),
        None => None,
    }
}

impl View for Line {
    type V = LineModel;

    open spec fn view(&self) -> LineModel {
        match self {
            Line::MatchedLine(p, t) => LineModel::Matched { position: *p as nat, text: t@ },
            Line::DifferingLine(p, l, r) => LineModel::Differing {
                position: *p as nat,
                left: option_view(*l),
                right: option_view(*r),
            },
        }
    }
}

/// The meaning of each record of a sequence.
pub open spec fn records_view(v: Seq<Line>) -> Seq<LineModel> {
    v.map_values(|x: Line| x@)
}

/// The line at index `i` of `lines`, or `None` past its end.
pub open spec fn line_at(lines: Seq<Seq<char>>, i: int) -> Option<Seq<char>> {
    if 0 <= i < lines.len() {
        Some(lines[i])
    } else {
        None
    }
}

/// A position matches exactly when both sides hold a line there and the two
/// lines are equal.
pub open spec fn classify(
    position: nat,
    left: Option<Seq<char>>,
    right: Option<Seq<char>>,
) -> LineModel {
    if left is Some && left == right {
        LineModel::Matched { position, text: left->0 }
    } else {
        LineModel::Differing { position, left, right }
    }
}

/// The records for two sequences of lines, paired by index up to the longer.
pub open spec fn align(left: Seq<Seq<char>>, right: Seq<Seq<char>>) -> Seq<LineModel> {
    let n = if left.len() >= right.len() {
        left.len()
    } else {
        right.len()
    };
    Seq::new(n, |i: int| classify((i + 1) as nat, line_at(left, i), line_at(right, i)))
}

/// The records for two texts.
pub open spec fn compare_texts(left: Seq<char>, right: Seq<char>) -> Seq<LineModel> {
    align(text_lines(left), text_lines(right))
}

/// Relies on itertools' `zip_longest`, which pairs items by index up to the
/// longer input, and `EitherOrBoth::left_and_right`, which turns each pair into
/// two options.
#[verifier::external_body]
fn pair_by_position(left: Vec<String>, right: Vec<String>) -> (r: Vec<(Option<String>, Option<String>)>)
    ensures
        r@.len() == (if left@.len() >= right@.len() { left@.len() } else { right@.len() }),
        forall|i: int|
            0 <= i < r@.len() ==> #[trigger] r@[i].0 == (if i < left@.len() {
                Some(left@[i])
            } else {
                None
            }),
        forall|i: int|
            0 <= i < r@.len() ==> #[trigger] r@[i].1 == (if i < right@.len() {
                Some(right@[i])
            } else {
                None
            }),
{
    left.into_iter().zip_longest(right).map(EitherOrBoth::left_and_right).collect()
}

/// Classifies one position from the two lines found there.
pub fn classify_line(position: usize, left: &Option<String>, right: &Option<String>) -> (r: Line)
    ensures
        r@ == classify(position as nat, option_view(*left), option_view(*right)),
{
    match left {
        Some(a) => match right {
            Some(b) => {
                if a.eq(b) {
                    Line::MatchedLine(position, a.clone())
                } else {
                    Line::DifferingLine(position, Some(a.clone()), Some(b.clone()))
                }
            },
            None => Line::DifferingLine(position, Some(a.clone()), None),
        },
        None => match right {
            Some(b) => Line::DifferingLine(position, None, Some(b.clone())),
            None => Line::DifferingLine(position, None, None),
        },
    }
}

/// Compares the lines of two texts by position.
pub fn compare_lines(left_text: &str, right_text: &str) -> (r: Vec<Line>)
    ensures
        records_view(r@) == compare_texts(left_text@, right_text@),
{
    let left = split_lines(left_text);
    let right = split_lines(right_text);
    let ghost ll = text_lines(left_text@);
    let ghost rl = text_lines(right_text@);
    let ghost lv = left@;
    let ghost rv = right@;
    let pairs = pair_by_position(left, right);
    let ghost expected = align(ll, rl);
    let mut out: Vec<Line> = Vec::new();
    let mut i: usize = 0;
    while i < pairs.len()
        invariant
            i <= pairs@.len(),
            expected == align(ll, rl),
            pairs@.len() == expected.len(),
            lv.len() == ll.len(),
            rv.len() == rl.len(),
            forall|j: int| 0 <= j < lv.len() ==> #[trigger] lv[j]@ == ll[j],
            forall|j: int| 0 <= j < rv.len() ==> #[trigger] rv[j]@ == rl[j],
            forall|j: int|
                0 <= j < pairs@.len() ==> #[trigger] pairs@[j].0 == (if j < lv.len() {
                    Some(lv[j])
                } else {
                    None
                }),
            forall|j: int|
                0 <= j < pairs@.len() ==> #[trigger] pairs@[j].1 == (if j < rv.len() {
                    Some(rv[j])
                } else {
                    None
                }),
            out@.len() == i,
            forall|j: int| 0 <= j < i ==> #[trigger] out@[j]@ == expected[j],
        decreases pairs@.len() - i,
    {
        let rec = classify_line(i + 1, &pairs[i].0, &pairs[i].1);
        out.push(rec);
        i = i + 1;
    }
    proof {
        assert(records_view(out@) =~= expected);
    }
    out
}

} // verus!
