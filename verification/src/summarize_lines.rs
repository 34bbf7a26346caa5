//! Logic for converting body lines to the summary view.

use vstd::prelude::*;

use crate::indent_string;
use crate::text::indented;
use crate::text::line_indented;
use crate::text::push_line;
use crate::text::starts_indented;

verus! {

/// The literal marker that replaces a collapsed indented region, at the given
/// indentation.
pub open spec fn ellipsis_line(indent: nat) -> Seq<char> {
    indented("..."@, indent)
}

/// The exclude range as mathematical indices.
pub open spec fn exclude_view(exclude: Option<(usize, usize)>) -> Option<(int, int)> {
    match exclude {
        Some((s, e)) => Some((s as int, e as int)),
        None => None,
    }
}

/// Line `i` collapses: it is indented and lies outside the exclude range.
pub open spec fn should_ellipsize(l: Seq<char>, i: int, exclude: Option<(int, int)>) -> bool {
    line_indented(l) && match exclude {
        Some((s, e)) => i < s || i >= e,
        None => true,
    }
}

/// One forward pass from line `i`, with `in_indent` telling whether the scan
/// stands inside a collapsed run. A blank line inside a collapsed run is
/// dropped; a collapsing line opens a run, contributing one ellipsis line
/// when it opens it; any other line is kept verbatim and closes the run.
pub open spec fn spec_summarize_from(
    lines: Seq<Seq<char>>,
    indent: nat,
    exclude: Option<(int, int)>,
    i: int,
    in_indent: bool,
) -> Seq<Seq<char>>
    decreases lines.len() - i,
{
    if i < 0 || i >= lines.len() {
        Seq::empty()
    } else {
        let l = lines[i];
        if l.len() == 0 && in_indent {
            spec_summarize_from(lines, indent, exclude, i + 1, in_indent)
        } else if should_ellipsize(l, i, exclude) {
            if !in_indent {
                seq![ellipsis_line(indent)] + spec_summarize_from(lines, indent, exclude, i + 1, true)
            } else {
                spec_summarize_from(lines, indent, exclude, i + 1, true)
            }
        } else {
            seq![l] + spec_summarize_from(lines, indent, exclude, i + 1, false)
        }
    }
}

/// The summary view of a body; see [`spec_summarize_from`].
pub open spec fn spec_summarize(
    lines: Seq<Seq<char>>,
    indent: nat,
    exclude: Option<(int, int)>,
) -> Seq<Seq<char>> {
    spec_summarize_from(lines, indent, exclude, 0, false)
}

/// Convert lines to the summary view.
///
/// Consecutive lines that start with a space or a tab are replaced with a
/// single `...` line at the specified indent. Empty lines inside an indented
/// region are dropped, while empty lines outside of an indented region are
/// preserved.
///
/// If the exclude range is set, the lines in that range are kept verbatim.
/// The exclude range has an inclusive start and an exclusive end.
pub fn summarize_lines(lines: &Vec<String>, indent: usize, exclude: Option<(usize, usize)>) -> (r:
    Vec<String>)
    ensures
        r.deep_view() == spec_summarize(lines.deep_view(), indent as nat, exclude_view(exclude)),
{
    let ghost dv = lines.deep_view();
    let ghost n = indent as nat;
    let ghost ex = exclude_view(exclude);
    let mut output: Vec<String> = Vec::new();
    let mut is_in_indent = false;
    let mut i: usize = 0;
    proof {
        assert(output.deep_view() =~= Seq::<Seq<char>>::empty());
        assert(output.deep_view() + spec_summarize_from(dv, n, ex, 0, false) =~= spec_summarize_from(
            dv,
            n,
            ex,
            0,
            false,
        ));
    }
    while i < lines.len()
        invariant
            0 <= i <= lines@.len(),
            dv == lines.deep_view(),
            n == indent as nat,
            ex == exclude_view(exclude),
            spec_summarize(dv, n, ex) == output.deep_view() + spec_summarize_from(
                dv,
                n,
                ex,
                i as int,
                is_in_indent,
            ),
        decreases lines@.len() - i,
    {
        proof {
            assert(dv[i as int] == lines@[i as int]@);
        }
        let ghost pre_out = output.deep_view();
        let ghost was_in_indent = is_in_indent;
        let line = &lines[i];
        let len = line.as_str().unicode_len();
        if len == 0 && is_in_indent {
            // dropped: a blank line inside a collapsed run
        } else {
            let in_exclude = match exclude {
                Some((s, e)) => i >= s && i < e,
                None => false,
            };
            let ellipsize = starts_indented(line.as_str()) && !in_exclude;
            if ellipsize {
                if !is_in_indent {
                    push_line(&mut output, indent_string("...", indent));
                    is_in_indent = true;
                    proof {
                        assert(pre_out + spec_summarize_from(dv, n, ex, i as int, was_in_indent)
                            =~= output.deep_view() + spec_summarize_from(dv, n, ex, i as int + 1, true));
                    }
                } else {
                    is_in_indent = true;
                }
            } else {
                push_line(&mut output, line.clone());
                is_in_indent = false;
                proof {
                    assert(pre_out + spec_summarize_from(dv, n, ex, i as int, was_in_indent)
                        =~= output.deep_view() + spec_summarize_from(dv, n, ex, i as int + 1, false));
                }
            }
        }
        i = i + 1;
    }
    proof {
        assert(spec_summarize_from(dv, n, ex, i as int, is_in_indent)
            =~= Seq::<Seq<char>>::empty());
        assert(output.deep_view() + spec_summarize_from(dv, n, ex, i as int, is_in_indent)
            =~= output.deep_view());
    }
    output
}

} // verus!
