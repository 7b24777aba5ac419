//! A differing position as shown to a reader, absent lines replaced by a marker.
use vstd::prelude::*;
use crate::line::option_view;
use crate::render::{decimal, missing_line_marker, missing_line_text, push_decimal, shown};

verus! {

/// One differing position: its 1-based line number and the two sides, either
/// of which may be absent.
#[derive(Debug)]
pub struct Difference {
    line_number: usize,
    missing_line_indicator: String,
    left_line: Option<String>,
    right_line: Option<String>,
}

/// What a `Difference` holds.
pub struct DifferenceModel {
    pub line_number: nat,
    pub left: Option<Seq<char>>,
    pub right: Option<Seq<char>>,
}

impl View for Difference {
    type V = DifferenceModel;

    closed spec fn view(&self) -> DifferenceModel {
        DifferenceModel {
            line_number: self.line_number as nat,
            left: option_view(self.left_line),
            right: option_view(self.right_line),
        }
    }
}

/// The text of a difference: `"Line: <n>."`, the left side after `"< "`, a
/// separator, the right side after `"> "`, and a blank line.
pub open spec fn difference_text(d: DifferenceModel) -> Seq<char> {
    "Line: "@ + decimal(d.line_number) + ".\n"@ + "< "@ + shown(d.left) + "\n"@ + "----\n"@
        + "> "@ + shown(d.right) + "\n"@ + "\n"@
}

impl Difference {
    #[verifier::type_invariant]
    spec fn marker_is_kept(&self) -> bool {
        self.missing_line_indicator@ == missing_line_marker()
    }

    /// A difference at `line_number` between `left_line` and `right_line`.
    pub fn new(line_number: usize, left_line: Option<String>, right_line: Option<String>) -> (r:
        Difference)
        ensures
            r@ == (DifferenceModel {
                line_number: line_number as nat,
                left: option_view(left_line),
                right: option_view(right_line),
            }),
    {
        Difference {
            line_number,
            missing_line_indicator: missing_line_text().to_owned(),
            left_line,
            right_line,
        }
    }

    /// The left line, or the missing-line marker where the left text has none.
    pub fn left_line(&self) -> (r: &String)
        ensures
            r@ == shown(self@.left),
    {
        proof {
            use_type_invariant(self);
        }
        match &self.left_line {
            Some(l) => l,
            None => &self.missing_line_indicator,
        }
    }

    /// The right line, or the missing-line marker where the right text has none.
    pub fn right_line(&self) -> (r: &String)
        ensures
            r@ == shown(self@.right),
    {
        proof {
            use_type_invariant(self);
        }
        match &self.right_line {
            Some(l) => l,
            None => &self.missing_line_indicator,
        }
    }

    /// The 1-based line number of this difference.
    pub fn line_number(&self) -> (r: usize)
        ensures
            r as nat == self@.line_number,
    {
        self.line_number
    }

    /// The plain text of this difference, as `difference_text` gives it.
    pub fn render(&self) -> (r: String)
        ensures
            r@ == difference_text(self@),
    {
        let mut out = String::new();
        out.append("Line: ");
        push_decimal(&mut out, self.line_number);
        out.append(".\n");
        out.append("< ");
        out.append(self.left_line().as_str());
        out.append("\n");
        out.append("----\n");
        out.append("> ");
        out.append(self.right_line().as_str());
        out.append("\n");
        out.append("\n");
        assert(out@ =~= difference_text(self@));
        out
    }
}

} // verus!
