//! Plain-text rendering of line records and of the report that lists them.
use vstd::prelude::*;
use crate::line::{records_view, Line, LineModel};

verus! {

/// The character that writes the decimal digit `d`.
pub open spec fn digit_char(d: nat) -> char {
    if d == 0 {
        '0'
    } else if d == 1 {
        '1'
    } else if d == 2 {
        '2'
    } else if d == 3 {
        '3'
    } else if d == 4 {
        '4'
    } else if d == 5 {
        '5'
    } else if d == 6 {
        '6'
    } else if d == 7 {
        '7'
    } else if d == 8 {
        '8'
    } else {
        '9'
    }
}

/// `n` written in decimal, without leading zeros.
pub open spec fn decimal(n: nat) -> Seq<char>
    decreases n,
{
    if n < 10 {
        seq![digit_char(n)]
    } else {
        decimal(n / 10) + seq![digit_char(n % 10)]
    }
}

/// What stands in the report where a text has no line.
pub open spec fn missing_line_marker() -> Seq<char> {
    "<missing line>"@
}

/// A side of a differing record as shown: its line, or the marker when absent.
pub open spec fn shown(side: Option<Seq<char>>) -> Seq<char> {
    match side {
        Some(t) => t,
        None => missing_line_marker(),
    }
}

/// The text of one record: `"<position>. <line>"` for a match; for a
/// difference, the left side, a separator annotated with the position, and the
/// right side. Each line ends with a newline.
pub open spec fn line_text(m: LineModel) -> Seq<char> {
    match m {
        LineModel::Matched { position, text } => decimal(position) + ". "@ + text + "\n"@,
        LineModel::Differing { position, left, right } => " - "@ + shown(left) + "\n"@ + decimal(
            position,
        ) + ". ----\n"@ + " + "@ + shown(right) + "\n"@,
    }
}

/// The texts of a sequence of records, one after the other.
pub open spec fn lines_text(s: Seq<LineModel>) -> Seq<char>
    decreases s.len(),
{
    if s.len() == 0 {
        Seq::<char>::empty()
    } else {
        lines_text(s.drop_last()) + line_text(s.last())
    }
}

/// How many records of `s` are differing ones.
pub open spec fn differing_count(s: Seq<LineModel>) -> nat
    decreases s.len(),
{
    if s.len() == 0 {
        0
    } else {
        differing_count(s.drop_last()) + if s.last() is Differing {
            1nat
        } else {
            0nat
        }
    }
}

/// The whole report: every record, a blank line, and the summary line.
pub open spec fn report_text(s: Seq<LineModel>) -> Seq<char> {
    lines_text(s) + "\n"@ + "Found "@ + decimal(differing_count(s)) + " differences.\n"@
}

/// The marker shown for an absent line.
pub fn missing_line_text() -> (r: &'static str)
    ensures
        r@ == missing_line_marker(),
{
    "<missing line>"
}

fn digit_text(d: usize) -> (r: &'static str)
    requires
        d < 10,
    ensures
        r@ == seq![digit_char(d as nat)],
{
    proof {
        reveal_strlit("0");
        reveal_strlit("1");
        reveal_strlit("2");
        reveal_strlit("3");
        reveal_strlit("4");
        reveal_strlit("5");
        reveal_strlit("6");
        reveal_strlit("7");
        reveal_strlit("8");
        reveal_strlit("9");
    }
    if d == 0 {
        "0"
    } else if d == 1 {
        "1"
    } else if d == 2 {
        "2"
    } else if d == 3 {
        "3"
    } else if d == 4 {
        "4"
    } else if d == 5 {
        "5"
    } else if d == 6 {
        "6"
    } else if d == 7 {
        "7"
    } else if d == 8 {
        "8"
    } else {
        "9"
    }
}

/// Appends `n` in decimal to `out`.
pub fn push_decimal(out: &mut String, n: usize)
    ensures
        final(out)@ == old(out)@ + decimal(n as nat),
    decreases n,
{
    if n >= 10 {
        push_decimal(out, n / 10);
    }
    out.append(digit_text(n % 10));
}

/// Appends the text of a differing side: its line, or the marker.
fn push_side(out: &mut String, side: &Option<String>)
    ensures
        final(out)@ == old(out)@ + shown(crate::line::option_view(*side)),
{
    match side {
        Some(t) => out.append(t.as_str()),
        None => out.append(missing_line_text()),
    }
}

impl Line {
    /// The plain text of this record, as `line_text` gives it.
    pub fn render(&self) -> (r: String)
        ensures
            r@ == line_text(self@),
    {
        let mut out = String::new();
        self.render_into(&mut out);
        out
    }

    /// Appends the plain text of this record to `out`.
    pub fn render_into(&self, out: &mut String)
        ensures
            final(out)@ == old(out)@ + line_text(self@),
    {
        let ghost start = out@;
        match self {
            Line::MatchedLine(position, text) => {
                push_decimal(out, *position);
                out.append(". ");
                out.append(text.as_str());
                out.append("\n");
            },
            Line::DifferingLine(position, left, right) => {
                out.append(" - ");
                push_side(out, left);
                out.append("\n");
                push_decimal(out, *position);
                out.append(". ----\n");
                out.append(" + ");
                push_side(out, right);
                out.append("\n");
            },
        }
        assert(out@ =~= start + line_text(self@));
    }
}

/// The number of differing records in `records`.
pub fn count_differences(records: &Vec<Line>) -> (n: usize)
    ensures
        n == differing_count(records_view(records@)),
{
    let ghost v = records_view(records@);
    let mut n: usize = 0;
    let mut i: usize = 0;
    while i < records.len()
        invariant
            i <= records@.len(),
            v == records_view(records@),
            n <= i,
            n == differing_count(v.subrange(0, i as int)),
        decreases records@.len() - i,
    {
        assert(v.subrange(0, i + 1).drop_last() =~= v.subrange(0, i as int));
        match &records[i] {
            Line::MatchedLine(_, _) => {},
            Line::DifferingLine(_, _, _) => {
                n = n + 1;
            },
        }
        i = i + 1;
    }
    assert(v.subrange(0, i as int) =~= v);
    n
}

/// The full report for `records`: the text of each record in order, then a
/// blank line and the line `"Found <n> differences."`.
pub fn render_report(records: &Vec<Line>) -> (r: String)
    ensures
        r@ == report_text(records_view(records@)),
{
    let ghost v = records_view(records@);
    let mut out = String::new();
    let mut i: usize = 0;
    while i < records.len()
        invariant
            i <= records@.len(),
            v == records_view(records@),
            out@ == lines_text(v.subrange(0, i as int)),
        decreases records@.len() - i,
    {
        assert(v.subrange(0, i + 1).drop_last() =~= v.subrange(0, i as int));
        records[i].render_into(&mut out);
        i = i + 1;
    }
    assert(v.subrange(0, i as int) =~= v);
    let n = count_differences(records);
    out.append("\n");
    out.append("Found ");
    push_decimal(&mut out, n);
    out.append(" differences.\n");
    assert(out@ =~= report_text(v));
    out
}

/// Rendering has no hidden state: two sequences of records with the same
/// meaning, in particular the same sequence rendered twice, give the same
/// report, character for character.
pub proof fn lemma_report_is_repeatable(first: Seq<Line>, second: Seq<Line>)
    requires
        records_view(first) == records_view(second),
    ensures
        report_text(records_view(first)) == report_text(records_view(second)),
        forall|i: int|
            0 <= i < first.len() ==> line_text(#[trigger] first[i]@) == line_text(second[i]@),
{
    assert(first.len() == records_view(first).len());
    assert(second.len() == records_view(second).len());
    assert forall|i: int| 0 <= i < first.len() implies line_text(#[trigger] first[i]@) == line_text(
        second[i]@,
    ) by {
        assert(records_view(first)[i] == first[i]@);
        assert(records_view(second)[i] == second[i]@);
    }
}

} // verus!
