//! Logic for finding comment blocks in a list of lines.

use vstd::prelude::*;

use crate::pattern::Pattern;
use crate::pattern::regex_compiles;
use crate::pattern::regex_match;
use crate::text::line_after_skip;
use crate::text::skip_chars;

verus! {

/// Mathematical model of a [`CommentPattern`]: each pattern is its source
/// text.
pub ghost struct CommentMatcherView {
    pub single_line: Seq<char>,
    pub multi_start: Option<Seq<char>>,
    pub multi_end: Seq<char>,
}

/// Patterns for comments.
///
/// The patterns should match the entire line.
pub struct CommentPattern {
    /// Pattern for single-line comments
    pub single_line: Pattern,
    /// Pattern for the first line of multi-line comments
    ///
    /// If none, then multi-line comments are not supported.
    pub multi_start: Option<Pattern>,
    /// Pattern for the last line of multi-line comments
    ///
    /// The last line must not be the start line. Ignored if `multi_start` is
    /// none.
    pub multi_end: Pattern,
}

impl View for CommentPattern {
    type V = CommentMatcherView;

    open spec fn view(&self) -> CommentMatcherView {
        CommentMatcherView {
            single_line: self.single_line@,
            multi_start: match self.multi_start {
                Some(p) => Some(p@),
                None => None,
            },
            multi_end: self.multi_end@,
        }
    }
}

/// Every pattern source of the matcher compiles as a regular expression.
pub open spec fn matcher_compiles(m: CommentMatcherView) -> bool {
    &&& regex_compiles(m.single_line)
    &&& (m.multi_start matches Some(p) ==> regex_compiles(p))
    &&& regex_compiles(m.multi_end)
}

/// The line, seen from character `skip` on, matches the single-line pattern.
pub open spec fn matches_single(m: CommentMatcherView, l: Seq<char>, skip: nat) -> bool {
    regex_match(m.single_line, skip_chars(l, skip))
}

/// The line, seen from character `skip` on, opens a multi-line block: a
/// multi-line start pattern exists and matches. (When the single-line pattern
/// also matches, the scan treats the line as single-line instead.)
pub open spec fn matches_multi_start(m: CommentMatcherView, l: Seq<char>, skip: nat) -> bool {
    m.multi_start matches Some(p) && regex_match(p, skip_chars(l, skip))
}

/// The line, seen from character `skip` on, matches the multi-line end
/// pattern.
pub open spec fn matches_multi_end(m: CommentMatcherView, l: Seq<char>, skip: nat) -> bool {
    regex_match(m.multi_end, skip_chars(l, skip))
}

/// A line opens a comment block (single-line or multi-line).
pub open spec fn opens_comment(m: CommentMatcherView, l: Seq<char>, skip: nat) -> bool {
    matches_single(m, l, skip) || matches_multi_start(m, l, skip)
}

/// Exclusive end of a single-line block whose lines before `j` all matched:
/// the first line at or after `j` that no longer matches the single-line
/// pattern, or the end of input.
pub open spec fn single_end_from(lines: Seq<Seq<char>>, m: CommentMatcherView, skip: nat, j: int) -> int
    decreases lines.len() - j,
{
    if j < 0 || j >= lines.len() {
        lines.len() as int
    } else if matches_single(m, lines[j], skip) {
        single_end_from(lines, m, skip, j + 1)
    } else {
        j
    }
}

/// Exclusive end of a multi-line block open before `j`: one past the first
/// line at or after `j` matching the multi-line end pattern, or the end of
/// input.
pub open spec fn multi_end_from(lines: Seq<Seq<char>>, m: CommentMatcherView, skip: nat, j: int) -> int
    decreases lines.len() - j,
{
    if j < 0 || j >= lines.len() {
        lines.len() as int
    } else if matches_multi_end(m, lines[j], skip) {
        j + 1
    } else {
        multi_end_from(lines, m, skip, j + 1)
    }
}

/// The first comment block at or after line `i`: the block starts at the
/// first line that opens one (a single-line match takes precedence over a
/// multi-line start on the same line; the opening line of a multi-line block
/// is never self-closing), and ends as [`single_end_from`] or
/// [`multi_end_from`] say.
pub open spec fn scan_from(lines: Seq<Seq<char>>, m: CommentMatcherView, skip: nat, i: int) -> Option<
    (int, int),
>
    decreases lines.len() - i,
{
    if i < 0 || i >= lines.len() {
        None
    } else if matches_single(m, lines[i], skip) {
        Some((i, single_end_from(lines, m, skip, i + 1)))
    } else if matches_multi_start(m, lines[i], skip) {
        Some((i, multi_end_from(lines, m, skip, i + 1)))
    } else {
        scan_from(lines, m, skip, i + 1)
    }
}

/// The first comment block of the whole input; see [`scan_from`].
pub open spec fn spec_find_comments(
    lines: Seq<Seq<char>>,
    m: CommentMatcherView,
    skip: nat,
) -> Option<(int, int)> {
    scan_from(lines, m, skip, 0)
}

/// A found block lies within the input and is never empty.
pub proof fn lemma_find_comments_range(
    lines: Seq<Seq<char>>,
    m: CommentMatcherView,
    skip: nat,
    i: int,
)
    ensures
        scan_from(lines, m, skip, i) matches Some((s, e)) ==> i <= s < e <= lines.len(),
    decreases lines.len() - i,
{
    if 0 <= i < lines.len() {
        lemma_single_end_range(lines, m, skip, i + 1);
        lemma_multi_end_range(lines, m, skip, i + 1);
        lemma_find_comments_range(lines, m, skip, i + 1);
    }
}

/// The end found by [`single_end_from`] lies between `j` and the end of
/// input.
pub proof fn lemma_single_end_range(
    lines: Seq<Seq<char>>,
    m: CommentMatcherView,
    skip: nat,
    j: int,
)
    requires
        0 <= j <= lines.len(),
    ensures
        j <= single_end_from(lines, m, skip, j) <= lines.len(),
    decreases lines.len() - j,
{
    if j < lines.len() && matches_single(m, lines[j], skip) {
        lemma_single_end_range(lines, m, skip, j + 1);
    }
}

/// The end found by [`multi_end_from`] lies between `j` and the end of
/// input.
pub proof fn lemma_multi_end_range(
    lines: Seq<Seq<char>>,
    m: CommentMatcherView,
    skip: nat,
    j: int,
)
    requires
        0 <= j <= lines.len(),
    ensures
        j <= multi_end_from(lines, m, skip, j) <= lines.len(),
    decreases lines.len() - j,
{
    if j < lines.len() && !matches_multi_end(m, lines[j], skip) {
        lemma_multi_end_range(lines, m, skip, j + 1);
    }
}

/// When no line at or after `i` opens a comment block, the scan finds none.
pub proof fn lemma_scan_no_openers(
    lines: Seq<Seq<char>>,
    m: CommentMatcherView,
    skip: nat,
    i: int,
)
    requires
        forall|j: int| i <= j < lines.len() ==> !opens_comment(m, #[trigger] lines[j], skip),
    ensures
        scan_from(lines, m, skip, i) is None,
    decreases lines.len() - i,
{
    if 0 <= i < lines.len() {
        lemma_scan_no_openers(lines, m, skip, i + 1);
    }
}

/// Locate the first block of comments in a list of lines.
///
/// Returns the start (inclusive) and end (exclusive) indices.
///
/// The first `indent` characters of each line are ignored; a line shorter
/// than `indent` counts as empty.
pub fn find_comments(body_lines: &Vec<String>, patterns: &CommentPattern, indent: usize) -> (r:
    Option<(usize, usize)>)
    ensures
        ({
            let sr = spec_find_comments(body_lines.deep_view(), patterns@, indent as nat);
            match r {
                Some((s, e)) => sr == Some((s as int, e as int)) && s < e <= body_lines@.len(),
                None => sr is None,
            }
        }),
{
    let ghost dv = body_lines.deep_view();
    let ghost m = patterns@;
    let ghost skip = indent as nat;
    let n = body_lines.len();
    let mut is_multi = false;
    let mut start: Option<usize> = None;
    let mut i: usize = 0;
    while i < n
        invariant
            0 <= i <= n,
            n == body_lines@.len(),
            dv == body_lines.deep_view(),
            m == patterns@,
            skip == indent as nat,
            match start {
                None => scan_from(dv, m, skip, 0) == scan_from(dv, m, skip, i as int),
                Some(s) => s < i && (if is_multi {
                    scan_from(dv, m, skip, 0) == Some((s as int, multi_end_from(dv, m, skip, i as int)))
                } else {
                    scan_from(dv, m, skip, 0) == Some((s as int, single_end_from(dv, m, skip, i as int)))
                }),
            },
        decreases n - i,
    {
        proof {
            assert(dv[i as int] == body_lines@[i as int]@);
        }
        let line = &body_lines[i];
        let eff = line_after_skip(line.as_str(), indent);
        match start {
            Some(s) => {
                if is_multi {
                    if patterns.multi_end.is_match(eff) {
                        proof {
                            assert(multi_end_from(dv, m, skip, i as int) == i as int + 1);
                            lemma_find_comments_range(dv, m, skip, 0);
                        }
                        return Some((s, i + 1));
                    }
                } else {
                    if !patterns.single_line.is_match(eff) {
                        proof {
                            assert(single_end_from(dv, m, skip, i as int) == i as int);
                            lemma_find_comments_range(dv, m, skip, 0);
                        }
                        return Some((s, i));
                    }
                }
            },
            None => {
                if patterns.single_line.is_match(eff) {
                    start = Some(i);
                    is_multi = false;
                } else {
                    match &patterns.multi_start {
                        Some(p) => {
                            if p.is_match(eff) {
                                start = Some(i);
                                is_multi = true;
                            }
                        },
                        None => {},
                    }
                }
            },
        }
        i = i + 1;
    }
    match start {
        Some(s) => {
            proof {
                if is_multi {
                    assert(multi_end_from(dv, m, skip, i as int) == dv.len());
                } else {
                    assert(single_end_from(dv, m, skip, i as int) == dv.len());
                }
                lemma_find_comments_range(dv, m, skip, 0);
            }
            Some((s, n))
        },
        None => {
            proof {
                assert(scan_from(dv, m, skip, i as int) is None);
            }
            None
        },
    }
}

} // verus!
