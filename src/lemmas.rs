//! Facts about the alignment of two texts.
use vstd::prelude::*;
use vstd::math::max;
use crate::line::{compare_texts, LineModel};
use crate::text::text_lines;

verus! {

/// Comparing two texts gives one record per line of the longer text.
pub proof fn lemma_compare_length(left: Seq<char>, right: Seq<char>)
    ensures
        compare_texts(left, right).len() == max(
            text_lines(left).len() as int,
            text_lines(right).len() as int,
        ),
{
}

/// Comparing a text with itself matches every line, one record per line, in
/// order.
pub proof fn lemma_compare_with_itself(text: Seq<char>)
    ensures
        compare_texts(text, text).len() == text_lines(text).len(),
        forall|i: int|
            0 <= i < text_lines(text).len() ==> #[trigger] compare_texts(text, text)[i]
                == (LineModel::Matched { position: (i + 1) as nat, text: text_lines(text)[i] }),
{
}

/// When two texts have as many lines and no position holds the same line on
/// both sides, every record differs and neither side is ever absent.
pub proof fn lemma_nothing_in_common(left: Seq<char>, right: Seq<char>)
    requires
        text_lines(left).len() == text_lines(right).len(),
        forall|i: int|
            0 <= i < text_lines(left).len() ==> #[trigger] text_lines(left)[i]
                != text_lines(right)[i],
    ensures
        compare_texts(left, right).len() == text_lines(left).len(),
        forall|i: int|
            0 <= i < text_lines(left).len() ==> #[trigger] compare_texts(left, right)[i]
                == (LineModel::Differing {
                position: (i + 1) as nat,
                left: Some(text_lines(left)[i]),
                right: Some(text_lines(right)[i]),
            }),
{
}

/// Where the right text runs past the end of the left one, each further
/// position differs with the left line absent.
pub proof fn lemma_right_runs_longer(left: Seq<char>, right: Seq<char>)
    requires
        text_lines(left).len() < text_lines(right).len(),
    ensures
        compare_texts(left, right).len() == text_lines(right).len(),
        forall|i: int|
            text_lines(left).len() <= i < text_lines(right).len() ==> #[trigger] compare_texts(
                left,
                right,
            )[i] == (LineModel::Differing {
                position: (i + 1) as nat,
                left: None,
                right: Some(text_lines(right)[i]),
            }),
{
}

/// Where the left text runs past the end of the right one, each further
/// position differs with the right line absent.
pub proof fn lemma_left_runs_longer(left: Seq<char>, right: Seq<char>)
    requires
        text_lines(right).len() < text_lines(left).len(),
    ensures
        compare_texts(left, right).len() == text_lines(left).len(),
        forall|i: int|
            text_lines(right).len() <= i < text_lines(left).len() ==> #[trigger] compare_texts(
                left,
                right,
            )[i] == (LineModel::Differing {
                position: (i + 1) as nat,
                left: Some(text_lines(left)[i]),
                right: None,
            }),
{
}

} // verus!
