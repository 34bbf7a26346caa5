//! Tests for finding comment blocks in a list of lines.

use codump::CommentPattern;
use codump::Pattern;
use codump::find_comments;

fn create_test_pattern() -> CommentPattern {
    CommentPattern {
        single_line: Pattern::new(r"^///").unwrap(),
        multi_start: Some(Pattern::new(r"^/\*\*").unwrap()),
        multi_end: Pattern::new(r"\*/\s*$").unwrap(),
    }
}

fn create_test_pattern_single_only() -> CommentPattern {
    CommentPattern {
        single_line: Pattern::new(r"^///").unwrap(),
        multi_start: None,
        multi_end: Pattern::new(r"\*/\s*$").unwrap(),
    }
}

#[test]
fn test_1_empty() {
    let lines = vec![];
    let pattern = create_test_pattern();
    let result = find_comments(&lines, &pattern, 0);
    assert!(result.is_none());
}

#[test]
fn test_1_no_comment() {
    let lines = vec![
        "fn main() {".to_string(),
        "    println!(\"Hello, world!\");".to_string(),
        "}".to_string(),
    ];
    let pattern = create_test_pattern();
    let result = find_comments(&lines, &pattern, 0);
    assert!(result.is_none());
}

#[test]
fn test_1_comment_start_single() {
    let lines = vec![
        "///abcde ".to_string(),
        "fn main() {".to_string(),
        "    println!(\"Hello, world!\");".to_string(),
        "}".to_string(),
    ];
    let pattern = create_test_pattern();
    let (start, end) = find_comments(&lines, &pattern, 0).unwrap();
    assert_eq!(start, 0);
    assert_eq!(end, 1);
}

#[test]
fn test_1_comment_start_single_many() {
    let lines = vec![
        "///abcde ".to_string(),
        "///abcde2 ".to_string(),
        "///abcde23".to_string(),
        "fn main() {".to_string(),
        "    println!(\"Hello, world!\");".to_string(),
        "}".to_string(),
        "///abcde24".to_string(),
    ];
    let pattern = create_test_pattern();
    let (start, end) = find_comments(&lines, &pattern, 0).unwrap();
    assert_eq!(start, 0);
    assert_eq!(end, 3);
}

#[test]
fn test_1_comment_start_single_none_in_between() {
    let lines = vec![
        "///abcde ".to_string(),
        "fn main() {".to_string(),
        "///abcde2 ".to_string(),
        "fn main() {".to_string(),
        "    println!(\"Hello, world!\");".to_string(),
        "}".to_string(),
    ];
    let pattern = create_test_pattern();
    let (start, end) = find_comments(&lines, &pattern, 0).unwrap();
    assert_eq!(start, 0);
    assert_eq!(end, 1);
}

#[test]
fn test_1_comment_start_multi() {
    let lines = vec![
        "/**abcde*/ ".to_string(),
        "fn main() {".to_string(),
        "    println!(\"Hello, world!\");".to_string(),
        "}".to_string(),
    ];
    let pattern = create_test_pattern();
    let (start, end) = find_comments(&lines, &pattern, 0).unwrap();
    assert_eq!(start, 0);
    assert_eq!(end, 4);
}

#[test]
fn test_1_comment_start_multi_many() {
    let lines = vec![
        "/**abcde ".to_string(),
        "///abcde2 ".to_string(),
        "///abcde23".to_string(),
        "///abcde23*/".to_string(),
        "fn main() {".to_string(),
        "    println!(\"Hello, world!\");".to_string(),
        "}".to_string(),
    ];
    let pattern = create_test_pattern();
    let (start, end) = find_comments(&lines, &pattern, 0).unwrap();
    assert_eq!(start, 0);
    assert_eq!(end, 4);
}

#[test]
fn test_1_comment_start_multi_none_in_between() {
    let lines = vec![
        "/**abcde ".to_string(),
        "///abcde23*/".to_string(),
        "/**abcde ".to_string(),
        "///abcde2 ".to_string(),
        "///abcde23".to_string(),
        "///abcde23*/".to_string(),
        "///abcde2 ".to_string(),
        "fn main() {".to_string(),
        "    println!(\"Hello, world!\");".to_string(),
        "}".to_string(),
    ];
    let pattern = create_test_pattern();
    let (start, end) = find_comments(&lines, &pattern, 0).unwrap();
    assert_eq!(start, 0);
    assert_eq!(end, 2);
}

#[test]
fn test_1_comment_end_single() {
    let lines = vec![
        "fn main() {".to_string(),
        "    println!(\"Hello, world!\");".to_string(),
        "}".to_string(),
        "///abcde ".to_string(),
    ];
    let pattern = create_test_pattern();
    let (start, end) = find_comments(&lines, &pattern, 0).unwrap();
    assert_eq!(start, 3);
    assert_eq!(end, 4);
}

#[test]
fn test_1_comment_end_single_many() {
    let lines = vec![
        "fn main() {".to_string(),
        "    println!(\"Hello, world!\");".to_string(),
        "}".to_string(),
        "///abcde23".to_string(),
        "///abcde24".to_string(),
    ];
    let pattern = create_test_pattern();
    let (start, end) = find_comments(&lines, &pattern, 0).unwrap();
    assert_eq!(start, 3);
    assert_eq!(end, 5);
}

#[test]
fn test_1_comment_end_single_none_in_between() {
    let lines = vec![
        "fn main() {".to_string(),
        "    println!(\"Hello, world!\");".to_string(),
        "}".to_string(),
        "///abcde ".to_string(),
        "fn main() {".to_string(),
        "///abcde2 ".to_string(),
    ];
    let pattern = create_test_pattern();
    let (start, end) = find_comments(&lines, &pattern, 0).unwrap();
    assert_eq!(start, 3);
    assert_eq!(end, 4);
}

#[test]
fn test_1_comment_end_multi() {
    let lines = vec![
        "fn main() {".to_string(),
        "    println!(\"Hello, world!\");".to_string(),
        "}".to_string(),
        "/**abcde ".to_string(),
        "abcde*/ ".to_string(),
    ];
    let pattern = create_test_pattern();
    let (start, end) = find_comments(&lines, &pattern, 0).unwrap();
    assert_eq!(start, 3);
    assert_eq!(end, 5);
}

#[test]
fn test_1_comment_end_multi_many() {
    let lines = vec![
        "fn main() {".to_string(),
        "    println!(\"Hello, world!\");".to_string(),
        "}".to_string(),
        "/**abcde ".to_string(),
        "abcde*/ ".to_string(),
    ];
    let pattern = create_test_pattern();
    let (start, end) = find_comments(&lines, &pattern, 0).unwrap();
    assert_eq!(start, 3);
    assert_eq!(end, 5);
}

#[test]
fn test_1_comment_end_multi_none_in_between() {
    let lines = vec![
        "fn main() {".to_string(),
        "    println!(\"Hello, world!\");".to_string(),
        "}".to_string(),
        "/**abcde ".to_string(),
        "abcde*/ ".to_string(),
        "fn main() {".to_string(),
        "/**abcde ".to_string(),
        "abcde*/ ".to_string(),
    ];
    let pattern = create_test_pattern();
    let (start, end) = find_comments(&lines, &pattern, 0).unwrap();
    assert_eq!(start, 3);
    assert_eq!(end, 5);
}

#[test]
fn test_single_only() {
    let lines = vec![
        "/**abcde ".to_string(),
        "abcde*/ ".to_string(),
        "fn main() {".to_string(),
        "    println!(\"Hello, world!\");".to_string(),
        "}".to_string(),
        "///abcde ".to_string(),
        "fn main() {".to_string(),
        "///abcde2 ".to_string(),
    ];
    let pattern = create_test_pattern_single_only();
    let (start, end) = find_comments(&lines, &pattern, 0).unwrap();
    assert_eq!(start, 5);
    assert_eq!(end, 6);
}

#[test]
fn test_with_indent() {
    let lines = vec![
        "/**abcde ".to_string(),
        "abcde*/ ".to_string(),
        "  /**abcde ".to_string(),
        "  abcde*/ ".to_string(),
    ];
    let pattern = create_test_pattern();
    let (start, end) = find_comments(&lines, &pattern, 2).unwrap();
    assert_eq!(start, 2);
    assert_eq!(end, 4);
}

#[test]
fn test_with_indent_short_line() {
    let lines = vec![
        "a".to_string(),
        "  /**abcde ".to_string(),
        "  abcde*/ ".to_string(),
    ];
    let pattern = create_test_pattern();
    let (start, end) = find_comments(&lines, &pattern, 2).unwrap();
    assert_eq!(start, 1);
    assert_eq!(end, 3);
}

#[test]
fn test_with_indent_short_line_end() {
    let lines = vec![
        "  /// something".to_string(),
        "h".to_string(),
        "  /// something".to_string(),
    ];
    let pattern = create_test_pattern();
    let (start, end) = find_comments(&lines, &pattern, 2).unwrap();
    assert_eq!(start, 0);
    assert_eq!(end, 1);
}
