//! Tests for converting body lines to the summary view.

use codump::summarize_lines;

#[test]
fn summarize_lines_test_empty() {
    let expected: Vec<String> = vec![];
    assert_eq!(summarize_lines(&vec![], 0, None), expected);
}

#[test]
fn test_no_indent() {
    let input = vec!["abc".to_string(), "bcd".to_string(), "cde".to_string()];
    assert_eq!(summarize_lines(&input, 0, None), input);
}

#[test]
fn test_indent_single_begin() {
    let input = vec![" abc".to_string(), "bcd".to_string(), "cde".to_string()];
    let expected = vec!["    ...".to_string(), "bcd".to_string(), "cde".to_string()];
    assert_eq!(summarize_lines(&input, 4, None), expected);
}

#[test]
fn test_indent_single_middle() {
    let input = vec!["bcd".to_string(), " abc".to_string(), "cde".to_string()];
    let expected = vec!["bcd".to_string(), "    ...".to_string(), "cde".to_string()];
    assert_eq!(summarize_lines(&input, 4, None), expected);
}

#[test]
fn test_indent_single_end() {
    let input = vec!["bcd".to_string(), "cde".to_string(), " abc".to_string()];
    let expected = vec!["bcd".to_string(), "cde".to_string(), "    ...".to_string()];
    assert_eq!(summarize_lines(&input, 4, None), expected);
}

#[test]
fn test_indent_multi_begin() {
    let input = vec![
        " abc".to_string(),
        "  abc".to_string(),
        "bcd".to_string(),
        "cde".to_string(),
    ];
    let expected = vec!["    ...".to_string(), "bcd".to_string(), "cde".to_string()];
    assert_eq!(summarize_lines(&input, 4, None), expected);
}

#[test]
fn test_indent_multi_middle() {
    let input = vec![
        "bcd".to_string(),
        " abc".to_string(),
        "  abc".to_string(),
        "cde".to_string(),
    ];
    let expected = vec!["bcd".to_string(), "    ...".to_string(), "cde".to_string()];
    assert_eq!(summarize_lines(&input, 4, None), expected);
}

#[test]
fn test_indent_multi_end() {
    let input = vec![
        "bcd".to_string(),
        "cde".to_string(),
        " abc".to_string(),
        "  abc".to_string(),
    ];
    let expected = vec!["bcd".to_string(), "cde".to_string(), "    ...".to_string()];
    assert_eq!(summarize_lines(&input, 4, None), expected);
}

#[test]
fn test_indent_multi_many1() {
    let input = vec![
        " abc".to_string(),
        "  abc".to_string(),
        "bcd".to_string(),
        "        abc".to_string(),
        "cde".to_string(),
        " abc".to_string(),
        "  abc".to_string(),
    ];
    let expected = vec![
        "    ...".to_string(),
        "bcd".to_string(),
        "    ...".to_string(),
        "cde".to_string(),
        "    ...".to_string(),
    ];
    assert_eq!(summarize_lines(&input, 4, None), expected);
}

#[test]
fn test_indent_multi_many2() {
    let input = vec![
        "bcd".to_string(),
        " abc".to_string(),
        "  abc".to_string(),
        "cde".to_string(),
        "     abc".to_string(),
    ];
    let expected = vec![
        "bcd".to_string(),
        "    ...".to_string(),
        "cde".to_string(),
        "    ...".to_string(),
    ];
    assert_eq!(summarize_lines(&input, 4, None), expected);
}

#[test]
fn test_indent_multi_many3() {
    let input = vec![
        "  abc".to_string(),
        "bcd".to_string(),
        " abc".to_string(),
        " abc".to_string(),
        "cde".to_string(),
    ];
    let expected = vec![
        "    ...".to_string(),
        "bcd".to_string(),
        "    ...".to_string(),
        "cde".to_string(),
    ];
    assert_eq!(summarize_lines(&input, 4, None), expected);
}

#[test]
fn test_exclude_unindent_to_indent() {
    let input = vec![
        "abc".to_string(),
        "bcd".to_string(),
        " abc".to_string(),
        " abc".to_string(),
        " abc".to_string(),
        "cde".to_string(),
    ];
    let expected = vec![
        "abc".to_string(),
        "bcd".to_string(),
        " abc".to_string(),
        " abc".to_string(),
        "  ...".to_string(),
        "cde".to_string(),
    ];
    assert_eq!(summarize_lines(&input, 2, Some((2, 4))), expected);
}

#[test]
fn test_exclude_indent_to_indent() {
    let input = vec![
        "abc".to_string(),
        "bcd".to_string(),
        " abc".to_string(),
        " abc".to_string(),
        " abc".to_string(),
        " abc".to_string(),
        "cde".to_string(),
    ];
    let expected = vec![
        "abc".to_string(),
        "bcd".to_string(),
        "  ...".to_string(),
        " abc".to_string(),
        " abc".to_string(),
        "  ...".to_string(),
        "cde".to_string(),
    ];
    assert_eq!(summarize_lines(&input, 2, Some((3, 5))), expected);
}

#[test]
fn test_exclude_indent_to_unindent() {
    let input = vec![
        "abc".to_string(),
        "bcd".to_string(),
        " abc".to_string(),
        " abc".to_string(),
        " abc".to_string(),
        " abc".to_string(),
        " abc".to_string(),
        "cde".to_string(),
    ];
    let expected = vec![
        "abc".to_string(),
        "bcd".to_string(),
        "  ...".to_string(),
        " abc".to_string(),
        " abc".to_string(),
        " abc".to_string(),
        "cde".to_string(),
    ];
    assert_eq!(summarize_lines(&input, 2, Some((4, 7))), expected);
}

#[test]
fn test_exclude_unindent_to_unindent() {
    let input = vec![
        " abc".to_string(),
        "bcd".to_string(),
        "bcd".to_string(),
        " cde".to_string(),
    ];
    let expected = vec![
        "  ...".to_string(),
        "bcd".to_string(),
        "bcd".to_string(),
        "  ...".to_string(),
    ];
    assert_eq!(summarize_lines(&input, 2, Some((1, 2))), expected);
}

#[test]
fn test_empty_line() {
    let input = vec![
        " abc".to_string(),
        "".to_string(),
        "bcd".to_string(),
        " cde".to_string(),
    ];
    let expected = vec!["  ...".to_string(), "bcd".to_string(), "  ...".to_string()];
    assert_eq!(summarize_lines(&input, 2, None), expected);
}

#[test]
fn test_empty_line_noindent() {
    let input = vec![
        "abc".to_string(),
        "".to_string(),
        "bcd".to_string(),
        " cde".to_string(),
    ];
    let expected = vec![
        "abc".to_string(),
        "".to_string(),
        "bcd".to_string(),
        "  ...".to_string(),
    ];
    assert_eq!(summarize_lines(&input, 2, None), expected);
}
