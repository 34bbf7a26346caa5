//! Logic for unindenting lines.

use vstd::prelude::*;

use crate::is_indent_char_spec;
use crate::text::clone_line_range;
use crate::text::line_after_skip;
use crate::text::push_line;
use crate::text::skip_chars;
use crate::text::starts_indented;

verus! {

/// One forward pass over `lines` from position `i`, with `prev_removed`
/// telling whether the nearest non-blank line above was dropped. A line
/// starting with an indent character keeps its characters after the first
/// `indent` (a shorter line becomes empty); a non-blank line without leading
/// indentation is dropped; a blank line is kept exactly when the nearest
/// non-blank line above was kept.
pub open spec fn spec_unindent_from(
    lines: Seq<Seq<char>>,
    indent: nat,
    i: int,
    prev_removed: bool,
) -> Seq<Seq<char>>
    decreases lines.len() - i,
{
    if i < 0 || i >= lines.len() {
        Seq::empty()
    } else {
        let l = lines[i];
        if l.len() == 0 {
            if prev_removed {
                spec_unindent_from(lines, indent, i + 1, prev_removed)
            } else {
                seq![l] + spec_unindent_from(lines, indent, i + 1, prev_removed)
            }
        } else if is_indent_char_spec(l[0]) {
            seq![skip_chars(l, indent)] + spec_unindent_from(lines, indent, i + 1, false)
        } else {
            spec_unindent_from(lines, indent, i + 1, true)
        }
    }
}

/// The unindented body: the identity when `indent` is 0, otherwise the pass
/// of [`spec_unindent_from`] over the whole body, starting as if the line
/// before the first were removed.
pub open spec fn spec_unindent(lines: Seq<Seq<char>>, indent: nat) -> Seq<Seq<char>> {
    if indent == 0 {
        lines
    } else {
        spec_unindent_from(lines, indent, 0, true)
    }
}

/// Unindent the body and remove lines with no leading spaces or tabs.
///
/// This returns a new copy with the body lines unindented; the input lines
/// are not modified. The first `indent` characters of each kept line are
/// removed mechanically; a kept line shorter than `indent` becomes empty.
///
/// Empty lines are only removed if the first non-empty line above them is
/// also removed.
pub fn unindent_lines(lines: &Vec<String>, indent: usize) -> (r: Vec<String>)
    ensures
        r.deep_view() == spec_unindent(lines.deep_view(), indent as nat),
{
    if indent == 0 {
        let r = clone_line_range(lines, 0, lines.len());
        proof {
            assert(lines.deep_view().subrange(0, lines.deep_view().len() as int) =~= lines.deep_view());
        }
        return r;
    }

    // start assuming lines are not indented and removed
    let mut last_removed = true;
    let mut out: Vec<String> = Vec::new();
    let mut i: usize = 0;
    let ghost dv = lines.deep_view();
    let ghost n = indent as nat;
    proof {
        assert(out.deep_view() =~= Seq::<Seq<char>>::empty());
        assert(out.deep_view() + spec_unindent_from(dv, n, 0, true) =~= spec_unindent_from(
            dv,
            n,
            0,
            true,
        ));
    }
    while i < lines.len()
        invariant
            0 <= i <= lines@.len(),
            dv == lines.deep_view(),
            n == indent as nat,
            indent >= 1,
            spec_unindent_from(dv, n, 0, true) == out.deep_view() + spec_unindent_from(
                dv,
                n,
                i as int,
                last_removed,
            ),
        decreases lines@.len() - i,
    {
        proof {
            assert(dv[i as int] == lines@[i as int]@);
        }
        let ghost pre_out = out.deep_view();
        let ghost was_removed = last_removed;
        let line = &lines[i];
        let len = line.as_str().unicode_len();
        if len == 0 {
            if !last_removed {
                let empty = String::new();
                proof {
                    assert(empty@ =~= dv[i as int]);
                }
                push_line(&mut out, empty);
                proof {
                    assert(pre_out + spec_unindent_from(dv, n, i as int, was_removed)
                        =~= out.deep_view() + spec_unindent_from(dv, n, i as int + 1, was_removed));
                }
            }
        } else if starts_indented(line.as_str()) {
            let kept = line_after_skip(line.as_str(), indent).to_owned();
            push_line(&mut out, kept);
            last_removed = false;
            proof {
                assert(pre_out + spec_unindent_from(dv, n, i as int, was_removed)
                    =~= out.deep_view() + spec_unindent_from(dv, n, i as int + 1, false));
            }
        } else {
            last_removed = true;
        }
        i = i + 1;
    }
    proof {
        assert(spec_unindent_from(dv, n, i as int, last_removed) =~= Seq::<Seq<char>>::empty());
        assert(out.deep_view() + spec_unindent_from(dv, n, i as int, last_removed)
            =~= out.deep_view());
    }
    out
}

} // verus!
