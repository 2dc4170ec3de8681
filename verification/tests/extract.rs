use artificial_app::extract::extract_fragment;

#[test]
fn three_line_fenced_block_round_trip() {
    assert_eq!(extract_fragment("```\n<p>hi</p>\n```"), "<p>hi</p>");
}

#[test]
fn two_line_input_gives_empty_string() {
    assert_eq!(extract_fragment("```\n```"), "");
}

#[test]
fn zero_line_input_gives_empty_string() {
    assert_eq!(extract_fragment(""), "");
}

#[test]
fn one_line_input_gives_empty_string() {
    assert_eq!(extract_fragment("no fence here"), "");
    assert_eq!(extract_fragment("\n"), "");
}

#[test]
fn several_interior_lines_are_rejoined() {
    assert_eq!(extract_fragment("```\n<div>\n  <b>x</b>\n</div>\n```"), "<div>\n  <b>x</b>\n</div>");
}

#[test]
fn trailing_newline_does_not_open_a_line() {
    assert_eq!(extract_fragment("```\n<html>A</html>\n```\n"), "<html>A</html>");
}

#[test]
fn interior_empty_lines_are_kept() {
    assert_eq!(extract_fragment("```\n\n\n```"), "\n");
}
