//! End-to-end scenarios: parsing, searching, contexts and formatting.

use codump::CliArgs;
use codump::CommentPattern;
use codump::Component;
use codump::Config;
use codump::Context;
use codump::FindComponentResult;
use codump::Format;
use codump::Pattern;
use codump::Preset;
use codump::find_comments;
use codump::find_component;
use codump::find_indentation;
use codump::indent_string;
use codump::is_indent_char;
use codump::parse_component;
use codump::unindent_lines;

fn lines(v: &[&str]) -> Vec<String> {
    v.iter().map(|s| s.to_string()).collect()
}

fn make_config(outer_single: &str, inner_single: &str) -> Config {
    Config {
        outer_comments: CommentPattern {
            single_line: Pattern::new(outer_single).unwrap(),
            multi_start: None,
            multi_end: Pattern::new("").unwrap(),
        },
        inner_comments: CommentPattern {
            single_line: Pattern::new(inner_single).unwrap(),
            multi_start: None,
            multi_end: Pattern::new("").unwrap(),
        },
        ignore_lines: vec![],
        include_context: true,
        context_include_comments: false,
        format: Format::Summary,
    }
}

#[test]
fn test_scanner_single_block() {
    let input = lines(&["///a", "///b", "x"]);
    let pattern = CommentPattern {
        single_line: Pattern::new(r"^///").unwrap(),
        multi_start: None,
        multi_end: Pattern::new("").unwrap(),
    };
    assert_eq!(find_comments(&input, &pattern, 0), Some((0, 2)));
}

#[test]
fn test_scanner_unterminated_multi() {
    let input = lines(&["/**a", "b"]);
    let pattern = CommentPattern {
        single_line: Pattern::new(r"^///").unwrap(),
        multi_start: Some(Pattern::new(r"^/\*\*").unwrap()),
        multi_end: Pattern::new(r"\*/$").unwrap(),
    };
    assert_eq!(find_comments(&input, &pattern, 0), Some((0, 2)));
}

#[test]
fn test_indent_probe_cases() {
    let empty: Vec<String> = vec![];
    assert_eq!(find_indentation(&empty), 0);
    assert_eq!(find_indentation(&lines(&["abc"])), 0);
    assert_eq!(find_indentation(&lines(&["abc", "  abc", "x"])), 2);
}

#[test]
fn test_rebaser_blank_line_rules() {
    assert_eq!(
        unindent_lines(&lines(&[" a", "", "  b", "c"]), 1),
        lines(&["a", "", " b"])
    );
    assert_eq!(unindent_lines(&lines(&["a", "", "  b"]), 1), lines(&[" b"]));
}

#[test]
fn test_no_markers_round_trip() {
    let input = lines(&["fn main() {", "    body", "}"]);
    let config = make_config(r"^///", r"^//!");
    let root = parse_component(vec![], input.clone(), 0, true, &config);
    assert!(root.is_root);
    assert_eq!(root.children.len(), 0);
    assert_eq!(root.body_lines, input);
    assert!(root.inner_comments.is_empty());
    assert_eq!(root.inner_comments_range, None);
}

#[test]
fn test_find_empty_path_noop() {
    let input = lines(&["//!crate doc", "///fn doc", "fn foo() {", "  body", "}"]);
    let config = make_config(r"^///", r"^//!");
    let root = parse_component(vec![], input, 0, true, &config);
    let found = match find_component(&root, &lines(&["foo"]), &config) {
        FindComponentResult::Found(component, _) => component,
        _ => panic!("expected a unique match"),
    };
    match find_component(&found, &vec![], &config) {
        FindComponentResult::Found(component, contexts) => {
            assert_eq!(component.body_lines, found.body_lines);
            assert_eq!(component.outer_comments, found.outer_comments);
            assert_eq!(contexts.len(), 0);
        },
        _ => panic!("expected the node itself"),
    }
}

#[test]
fn test_ambiguous_siblings() {
    let input = lines(&["///a", "x Handler {", "///b", "y Handler {"]);
    let config = make_config(r"^///", r"^//!");
    let root = parse_component(vec![], input, 0, true, &config);
    assert_eq!(root.children.len(), 2);
    match find_component(&root, &lines(&["Handler"]), &config) {
        FindComponentResult::Multiple(candidates, term) => {
            assert_eq!(candidates.len(), 2);
            assert_eq!(term, "Handler");
            assert_eq!(candidates[0].body_lines, lines(&["x Handler {"]));
            assert_eq!(candidates[1].body_lines, lines(&["y Handler {"]));
        },
        _ => panic!("expected an ambiguous result"),
    }
}

#[test]
fn test_not_found_term() {
    let input = lines(&["//!crate doc", "///fn doc", "fn foo() {", "  body", "}"]);
    let config = make_config(r"^///", r"^//!");
    let root = parse_component(vec![], input, 0, true, &config);
    match find_component(&root, &lines(&["zzz"]), &config) {
        FindComponentResult::NotFound(term) => assert_eq!(term, "zzz"),
        _ => panic!("expected a miss"),
    }
}

#[test]
fn test_end_to_end_parse_and_find() {
    let input = lines(&["//!crate doc", "///fn doc", "fn foo() {", "  body", "}"]);
    let config = make_config(r"^///", r"^//!");
    let root = parse_component(vec![], input, 0, true, &config);
    assert!(root.is_root);
    assert_eq!(root.inner_comments, lines(&["//!crate doc"]));
    assert_eq!(root.inner_comments_range, Some((0, 1)));
    assert_eq!(root.children.len(), 1);
    let child = &root.children[0];
    assert_eq!(child.outer_comments, lines(&["///fn doc"]));
    assert_eq!(child.body_lines, lines(&["fn foo() {", "  body", "}"]));
    assert_eq!(child.indent, 2);
    assert_eq!(child.children.len(), 0);

    match find_component(&root, &lines(&["foo"]), &config) {
        FindComponentResult::Found(component, contexts) => {
            assert_eq!(component.body_lines, lines(&["fn foo() {", "  body", "}"]));
            assert_eq!(contexts.len(), 1);
            assert_eq!(contexts[0].begin_body_lines, lines(&["..."]));
            assert_eq!(contexts[0].end_body_lines, lines(&["..."]));
            assert!(contexts[0].outer_comments.is_empty());
            assert_eq!(contexts[0].indent, 0);
        },
        _ => panic!("expected a unique match"),
    }
}

#[test]
fn test_format_modes() {
    let input = lines(&["//!crate doc", "///fn doc", "fn foo() {", "  body", "}"]);
    let config = make_config(r"^///", r"^//!");
    let root = parse_component(vec![], input, 0, true, &config);
    let child = &root.children[0];
    assert_eq!(
        Format::Summary.format(child),
        lines(&["///fn doc", "fn foo() {", "  ...", "}"])
    );
    assert_eq!(Format::Comment.format(child), lines(&["///fn doc"]));
    assert_eq!(
        Format::Detail.format(child),
        lines(&["///fn doc", "fn foo() {", "  body", "}"])
    );
}

#[test]
fn test_format_with_context_brackets() {
    let input = lines(&["//!crate doc", "///fn doc", "fn foo() {", "  body", "}"]);
    let config = make_config(r"^///", r"^//!");
    let root = parse_component(vec![], input, 0, true, &config);
    match find_component(&root, &lines(&["foo"]), &config) {
        FindComponentResult::Found(component, contexts) => {
            assert_eq!(
                Format::Summary.format_with_context(&component, &contexts),
                lines(&["...", "///fn doc", "fn foo() {", "  ...", "}", "..."])
            );
        },
        _ => panic!("expected a unique match"),
    }
}

#[test]
fn test_context_without_inner_comments() {
    let input = lines(&["//!crate doc", "///fn doc", "fn foo() {", "  body", "}"]);
    let config = make_config(r"^///", r"^//!");
    let root = parse_component(vec![], input, 0, true, &config);
    let child = &root.children[0];
    let context = Context::from_component(child, false);
    assert_eq!(context.begin_body_lines, lines(&["fn foo() {", "  ..."]));
    assert_eq!(context.end_body_lines, lines(&["  ...", "}"]));
    assert!(context.outer_comments.is_empty());
    assert_eq!(context.indent, 2);
}

#[test]
fn test_context_with_inner_comments() {
    let component = Component {
        is_root: false,
        outer_comments: lines(&["///x"]),
        body_lines: lines(&["head {", "//!doc", "  in", "}"]),
        inner_comments: lines(&["//!doc"]),
        inner_comments_range: Some((1, 2)),
        children: vec![],
        indent: 2,
    };
    let context = Context::from_component(&component, true);
    assert_eq!(context.outer_comments, lines(&["///x"]));
    assert_eq!(
        context.begin_body_lines,
        lines(&["head {", "  //!doc", "  ..."])
    );
    assert_eq!(context.end_body_lines, lines(&["  ...", "}"]));
}

#[test]
fn test_nested_components() {
    let input = lines(&[
        "///outer",
        "mod m {",
        "  ///inner fn",
        "  fn g() {",
        "    body",
        "  }",
        "}",
    ]);
    let config = make_config(r"^///", r"^//!");
    let root = parse_component(vec![], input, 0, true, &config);
    assert_eq!(root.children.len(), 1);
    let child = &root.children[0];
    assert_eq!(child.indent, 2);
    assert_eq!(child.children.len(), 1);
    let grandchild = &child.children[0];
    assert_eq!(grandchild.outer_comments, lines(&["///inner fn"]));
    assert_eq!(grandchild.body_lines, lines(&["fn g() {", "  body", "}"]));
}

#[test]
fn test_ignore_lines_dropped() {
    let input = lines(&["#attr", "///doc", "f() {", "  x", "}"]);
    let mut config = make_config(r"^///", r"^//!");
    config.ignore_lines = vec![Pattern::new(r"^#").unwrap()];
    let root = parse_component(vec![], input, 0, true, &config);
    assert_eq!(root.children.len(), 1);
    assert_eq!(root.children[0].body_lines, lines(&["f() {", "  x", "}"]));
}

#[test]
fn test_preset_rust_patterns() {
    let (outer, inner) = Preset::Rust.get_patterns().unwrap();
    let test_lines = lines(&["///doc", "//!inner", "code"]);
    assert_eq!(find_comments(&test_lines, &outer, 0), Some((0, 1)));
    assert_eq!(find_comments(&test_lines, &inner, 0), Some((1, 2)));
}

#[test]
fn test_preset_rust_java_multi() {
    let (outer, _inner) = Preset::RustJava.get_patterns().unwrap();
    let test_lines = lines(&["/** doc", " * more", " */", "code"]);
    assert_eq!(find_comments(&test_lines, &outer, 0), Some((0, 3)));
}

fn default_args() -> CliArgs {
    CliArgs {
        file: "input.txt".to_string(),
        search_path: lines(&["foo"]),
        outer: None,
        outer_start: None,
        outer_end: None,
        inner: None,
        inner_start: None,
        inner_end: None,
        ignore: vec![],
        format: Format::Summary,
        preset: None,
        context: false,
        context_comments: false,
    }
}

#[test]
fn test_config_missing_pattern_error() {
    let args = default_args();
    match Config::try_from_args(args) {
        Err(msg) => assert_eq!(
            msg,
            "Comment pattern missing. Either use a --preset or specify all the --outer* and --inner* arguments. See --help for more."
        ),
        Ok(_) => panic!("expected an error"),
    }
}

#[test]
fn test_config_invalid_regex_error() {
    let mut args = default_args();
    args.preset = Some(Preset::Rust);
    args.outer = Some("(".to_string());
    match Config::try_from_args(args) {
        Err(msg) => assert_eq!(msg, "Invalid regex \"(\". See --help for more."),
        Ok(_) => panic!("expected an error"),
    }
}

#[test]
fn test_config_from_preset_with_override() {
    let mut args = default_args();
    args.preset = Some(Preset::Rust);
    args.inner = Some(r"^//@".to_string());
    args.context_comments = true;
    let config = Config::try_from_args(args).unwrap();
    assert!(config.include_context);
    assert!(config.context_include_comments);
    let test_lines = lines(&["///doc", "//@inner", "code"]);
    assert_eq!(
        find_comments(&test_lines, &config.outer_comments, 0),
        Some((0, 1))
    );
    assert_eq!(
        find_comments(&test_lines, &config.inner_comments, 0),
        Some((1, 2))
    );
}

#[test]
fn test_indent_helpers() {
    assert!(is_indent_char(' '));
    assert!(is_indent_char('\t'));
    assert!(!is_indent_char('a'));
    assert_eq!(indent_string("abc", 4), "    abc");
    assert_eq!(indent_string("", 0), "");
}

#[test]
fn test_rejected_comment_candidates() {
    // A block followed by an indented line does not introduce a child; the
    // scan resumes past it.
    let config = make_config(r"^///", r"^//!");
    let input = lines(&["///a", "  indented", "///b", "x"]);
    let root = parse_component(vec![], input, 0, true, &config);
    assert_eq!(root.children.len(), 1);
    assert_eq!(root.children[0].outer_comments, lines(&["///b"]));
    assert_eq!(root.children[0].body_lines, lines(&["x"]));

    // A block followed by a blank line does not introduce a child either.
    let input = lines(&["///a", "", "x"]);
    let root = parse_component(vec![], input, 0, true, &config);
    assert_eq!(root.children.len(), 0);
}

#[test]
fn test_preset_python() {
    let (outer, inner) = Preset::Python.get_patterns().unwrap();
    let test_lines = lines(&["", "def f():", "\"\"\"doc", "\"\"\"", "code"]);
    // the outer pattern matches the empty line
    assert_eq!(find_comments(&test_lines, &outer, 0), Some((0, 1)));
    // the inner pattern opens a multi-line docstring
    assert_eq!(find_comments(&test_lines, &inner, 0), Some((2, 4)));
}

#[test]
fn test_pattern_compile_failure() {
    assert!(Pattern::new("(").is_none());
    assert!(Pattern::new(r"^///").is_some());
}

#[test]
fn test_format_default_is_summary() {
    assert!(matches!(Format::default(), Format::Summary));
}

#[test]
fn test_two_level_context_format() {
    let input = lines(&[
        "///outer",
        "mod m {",
        "  ///inner fn",
        "  fn g() {",
        "    body",
        "  }",
        "}",
    ]);
    let config = make_config(r"^///", r"^//!");
    let root = parse_component(vec![], input, 0, true, &config);
    match find_component(&root, &lines(&["mod", "g"]), &config) {
        FindComponentResult::Found(component, contexts) => {
            assert_eq!(component.outer_comments, lines(&["///inner fn"]));
            assert_eq!(contexts.len(), 2);
            // nearest ancestor first, the file root last
            assert_eq!(contexts[0].indent, 2);
            assert_eq!(contexts[1].indent, 0);
            assert_eq!(
                Format::Summary.format_with_context(&component, &contexts),
                lines(&[
                    "...",
                    "mod m {",
                    "  ...",
                    "  ///inner fn",
                    "  fn g() {",
                    "    ...",
                    "  }",
                    "  ...",
                    "}",
                    "...",
                ])
            );
        },
        _ => panic!("expected a unique match"),
    }
}

#[test]
fn test_context_end_is_plain_tail_summary() {
    // With a known inner-comment range, the end fragment is exactly the
    // summary of the body after the range, with no extra compaction.
    let component = Component {
        is_root: false,
        outer_comments: vec![],
        body_lines: lines(&["//!d", "x"]),
        inner_comments: lines(&["//!d"]),
        inner_comments_range: Some((0, 1)),
        children: vec![],
        indent: 0,
    };
    let context = Context::from_component(&component, false);
    assert_eq!(context.end_body_lines, lines(&["x"]));
    assert_eq!(context.begin_body_lines, lines(&["..."]));
}

#[test]
fn test_config_invalid_ignore_error() {
    let mut args = default_args();
    args.preset = Some(Preset::Rust);
    args.ignore = vec!["[".to_string()];
    match Config::try_from_args(args) {
        Err(msg) => assert_eq!(msg, "Invalid regex \"[\". See --help for more."),
        Ok(_) => panic!("expected an error"),
    }
}
