//! Logic for finding the indentation of a block.

use vstd::prelude::*;

use crate::is_indent_char;
use crate::is_indent_char_spec;

verus! {

/// Number of consecutive indent characters in `l` at or after position `i`.
pub open spec fn indent_run_from(l: Seq<char>, i: int) -> nat
    decreases l.len() - i,
{
    if i < 0 || i >= l.len() || !is_indent_char_spec(l[i]) {
        0
    } else {
        1 + indent_run_from(l, i + 1)
    }
}

/// Length of the leading run of indent characters of a line.
pub open spec fn indent_prefix_len(l: Seq<char>) -> nat {
    indent_run_from(l, 0)
}

/// A line determines a block's indentation when it has a non-empty leading
/// whitespace run and content after it.
pub open spec fn line_has_indentation(l: Seq<char>) -> bool {
    0 < indent_prefix_len(l) < l.len()
}

/// The indentation of a block: the leading-whitespace count of the first line
/// that has both leading whitespace and content after it, or 0 if no line
/// does.
pub open spec fn spec_find_indentation_from(lines: Seq<Seq<char>>, i: int) -> nat
    decreases lines.len() - i,
{
    if i < 0 || i >= lines.len() {
        0
    } else if line_has_indentation(lines[i]) {
        indent_prefix_len(lines[i])
    } else {
        spec_find_indentation_from(lines, i + 1)
    }
}

/// See [`spec_find_indentation_from`]; the search starts at the first line.
pub open spec fn spec_find_indentation(lines: Seq<Seq<char>>) -> nat {
    spec_find_indentation_from(lines, 0)
}

/// Length of the leading run of indent characters of `line`.
pub fn indent_prefix_count(line: &str) -> (r: usize)
    ensures
        r as nat == indent_prefix_len(line@),
        r <= line@.len(),
{
    let n = line.unicode_len();
    let mut i: usize = 0;
    while i < n && is_indent_char(line.get_char(i))
        invariant
            0 <= i <= n,
            n == line@.len(),
            indent_prefix_len(line@) == i + indent_run_from(line@, i as int),
            forall|k: int| 0 <= k < i as int ==> is_indent_char_spec(line@[k]),
        decreases n - i,
    {
        i = i + 1;
    }
    proof {
        assert(indent_run_from(line@, i as int) == 0);
    }
    i
}

/// Find the indentation of a block.
///
/// The indentation is determined by the first line with leading whitespace
/// and content after the leading whitespace.
///
/// If the body lines are empty or none of the lines have leading whitespace,
/// 0 is returned.
pub fn find_indentation(lines: &Vec<String>) -> (r: usize)
    ensures
        r as nat == spec_find_indentation(lines.deep_view()),
{
    let mut i: usize = 0;
    while i < lines.len()
        invariant
            0 <= i <= lines@.len(),
            spec_find_indentation(lines.deep_view()) == spec_find_indentation_from(
                lines.deep_view(),
                i as int,
            ),
        decreases lines@.len() - i,
    {
        proof {
            assert(lines.deep_view()[i as int] == lines@[i as int]@);
        }
        let line = &lines[i];
        let k = indent_prefix_count(line.as_str());
        let n = line.as_str().unicode_len();
        if k > 0 && k < n {
            return k;
        }
        i = i + 1;
    }
    0
}

} // verus!
