use line_diff::line::{classify_line, compare_lines};
use line_diff::line::Line::{DifferingLine, MatchedLine};

fn s(text: &str) -> Option<String> {
    Some(String::from(text))
}

#[test]
fn it_should_compare_one_matched_line() {
    let lines = compare_lines("asd", "asd");
    assert_eq!(lines, vec![MatchedLine(1, String::from("asd"))])
}

#[test]
fn it_should_compare_one_differing_line() {
    let lines = compare_lines("asd", "basd");
    assert_eq!(lines, vec![DifferingLine(1, s("asd"), s("basd"))])
}

#[test]
fn it_should_compare_one_matching_and_one_differing_line() {
    let lines = compare_lines("one\ntwo", "zero\ntwo");
    assert_eq!(
        lines,
        vec![
            DifferingLine(1, s("one"), s("zero")),
            MatchedLine(2, String::from("two"))
        ]
    )
}

#[test]
fn empty_texts_give_no_records() {
    assert_eq!(compare_lines("", ""), vec![]);
}

#[test]
fn empty_line_is_not_an_absent_line() {
    let lines = compare_lines("a\n\nb", "a\nc\nb");
    assert_eq!(lines[1], DifferingLine(2, s(""), s("c")));
    assert_eq!(lines.len(), 3);
}

#[test]
fn line_past_the_end_of_the_left_text_is_absent() {
    let lines = compare_lines("a\nb", "a\nb\nc");
    assert_eq!(
        lines,
        vec![
            MatchedLine(1, String::from("a")),
            MatchedLine(2, String::from("b")),
            DifferingLine(3, None, s("c"))
        ]
    );
}

#[test]
fn line_past_the_end_of_the_right_text_is_absent() {
    let lines = compare_lines("x\ny\nz", "x");
    assert_eq!(
        lines,
        vec![
            MatchedLine(1, String::from("x")),
            DifferingLine(2, s("y"), None),
            DifferingLine(3, s("z"), None)
        ]
    );
}

#[test]
fn empty_left_text_marks_every_left_line_absent() {
    let lines = compare_lines("", "p\nq\n");
    assert_eq!(
        lines,
        vec![DifferingLine(1, None, s("p")), DifferingLine(2, None, s("q"))]
    );
}

#[test]
fn record_count_is_the_longer_line_count() {
    assert_eq!(compare_lines("a\nb\nc\nd", "a").len(), 4);
    assert_eq!(compare_lines("a", "a\nb\nc").len(), 3);
    assert_eq!(compare_lines("a\nb", "c\nd").len(), 2);
}

#[test]
fn text_compared_with_itself_matches_everywhere() {
    let text = "first\n\nthird\r\nfourth";
    let lines = compare_lines(text, text);
    assert_eq!(
        lines,
        vec![
            MatchedLine(1, String::from("first")),
            MatchedLine(2, String::from("")),
            MatchedLine(3, String::from("third")),
            MatchedLine(4, String::from("fourth"))
        ]
    );
}

#[test]
fn texts_without_common_lines_differ_everywhere() {
    let lines = compare_lines("a\nb\nc", "x\ny\nz");
    assert_eq!(
        lines,
        vec![
            DifferingLine(1, s("a"), s("x")),
            DifferingLine(2, s("b"), s("y")),
            DifferingLine(3, s("c"), s("z"))
        ]
    );
}

#[test]
fn trailing_newline_adds_no_line() {
    assert_eq!(
        compare_lines("a\nb\n", "a\nb"),
        vec![
            MatchedLine(1, String::from("a")),
            MatchedLine(2, String::from("b"))
        ]
    );
}

#[test]
fn carriage_return_before_newline_is_dropped() {
    assert_eq!(
        compare_lines("a\r\nb\r\n", "a\nb"),
        vec![
            MatchedLine(1, String::from("a")),
            MatchedLine(2, String::from("b"))
        ]
    );
}

#[test]
fn final_carriage_return_without_newline_is_kept() {
    assert_eq!(
        compare_lines("a\nb\r", "a\nb"),
        vec![
            MatchedLine(1, String::from("a")),
            DifferingLine(2, s("b\r"), s("b"))
        ]
    );
}

#[test]
fn marker_text_in_a_file_is_not_an_absent_line() {
    assert_eq!(
        compare_lines("a\n<missing line>", "a"),
        vec![
            MatchedLine(1, String::from("a")),
            DifferingLine(2, s("<missing line>"), None)
        ]
    );
}

#[test]
fn classify_line_matches_only_equal_present_lines() {
    assert_eq!(classify_line(7, &s("k"), &s("k")), MatchedLine(7, String::from("k")));
    assert_eq!(classify_line(7, &s("k"), &s("K")), DifferingLine(7, s("k"), s("K")));
    assert_eq!(classify_line(3, &None, &s("")), DifferingLine(3, None, s("")));
    assert_eq!(classify_line(3, &None, &None), DifferingLine(3, None, None));
}
