//! Logic for converting a component to a display context.

use vstd::prelude::*;

use crate::indent_string;
use crate::parse_component::Component;
use crate::parse_component::ComponentView;
use crate::parse_component::component_wf_shallow;
use crate::summarize_lines::ellipsis_line;
use crate::summarize_lines::spec_summarize;
use crate::summarize_lines::summarize_lines;
use crate::text::clone_line_range;
use crate::text::indented;
use crate::text::line_indented;
use crate::text::push_line;
use crate::text::starts_indented;

verus! {

/// The last line exists and is indented.
pub open spec fn spec_is_last_indented(lines: Seq<Seq<char>>) -> bool {
    lines.len() > 0 && line_indented(lines.last())
}

/// The longest prefix that is either empty or ends in an indented line.
pub open spec fn spec_trim_to_indented(lines: Seq<Seq<char>>) -> Seq<Seq<char>>
    decreases lines.len(),
{
    if lines.len() == 0 || line_indented(lines.last()) {
        lines
    } else {
        spec_trim_to_indented(lines.drop_last())
    }
}

/// Every line prefixed with `n` spaces.
pub open spec fn spec_indent_all(lines: Seq<Seq<char>>, n: nat) -> Seq<Seq<char>> {
    Seq::new(lines.len(), |i: int| indented(lines[i], n))
}

/// The opening fragment of a context; see [`Context::from_component`].
pub open spec fn spec_begin_body_lines(c: ComponentView, include_comments: bool) -> Seq<
    Seq<char>,
> {
    if c.is_root {
        if include_comments {
            spec_indent_all(c.inner_comments, c.indent) + seq![ellipsis_line(c.indent)]
        } else {
            seq![ellipsis_line(c.indent)]
        }
    } else {
        match c.inner_comments_range {
            Some((s, e)) => {
                let base = spec_summarize(c.body_lines.subrange(0, s), c.indent, None);
                if include_comments {
                    base + spec_indent_all(c.inner_comments, c.indent) + seq![
                        ellipsis_line(c.indent),
                    ]
                } else if !spec_is_last_indented(base) {
                    base + seq![ellipsis_line(c.indent)]
                } else {
                    base
                }
            },
            None => spec_trim_to_indented(spec_summarize(c.body_lines, c.indent, None)),
        }
    }
}

/// The closing fragment of a context; see [`Context::from_component`].
pub open spec fn spec_end_body_lines(c: ComponentView) -> Seq<Seq<char>> {
    if c.is_root {
        seq![ellipsis_line(c.indent)]
    } else {
        match c.inner_comments_range {
            Some((s, e)) => spec_summarize(
                c.body_lines.subrange(e, c.body_lines.len() as int),
                c.indent,
                None,
            ),
            None => {
                let l = spec_summarize(c.body_lines, c.indent, None);
                seq![ellipsis_line(c.indent)] + l.skip(spec_trim_to_indented(l).len() as int)
            },
        }
    }
}

/// Mathematical model of a [`Context`].
#[verifier::ext_equal]
pub ghost struct ContextView {
    pub outer_comments: Seq<Seq<char>>,
    pub begin_body_lines: Seq<Seq<char>>,
    pub indent: nat,
    pub end_body_lines: Seq<Seq<char>>,
}

/// The context derived from a component: its outer comments (when requested),
/// its begin and end fragments, and its indentation.
pub open spec fn spec_context_from(c: ComponentView, include_comments: bool) -> ContextView {
    ContextView {
        outer_comments: if include_comments {
            c.outer_comments
        } else {
            Seq::empty()
        },
        begin_body_lines: spec_begin_body_lines(c, include_comments),
        indent: c.indent,
        end_body_lines: spec_end_body_lines(c),
    }
}

/// Context for a component.
///
/// A context is used to display a compacted view of an ancestor without
/// cloning the entire component tree.
pub struct Context {
    /// Outer comments
    pub outer_comments: Vec<String>,
    /// Beginning body lines
    pub begin_body_lines: Vec<String>,
    /// Indentation of the component
    pub indent: usize,
    /// End body lines
    pub end_body_lines: Vec<String>,
}

impl View for Context {
    type V = ContextView;

    open spec fn view(&self) -> ContextView {
        ContextView {
            outer_comments: self.outer_comments.deep_view(),
            begin_body_lines: self.begin_body_lines.deep_view(),
            indent: self.indent as nat,
            end_body_lines: self.end_body_lines.deep_view(),
        }
    }
}

/// Check if the last line exists and starts an indented block.
fn is_last_indented_block(lines: &Vec<String>) -> (r: bool)
    ensures
        r == spec_is_last_indented(lines.deep_view()),
{
    if lines.len() == 0 {
        false
    } else {
        proof {
            assert(lines.deep_view().last() == lines@[lines@.len() - 1]@);
        }
        starts_indented(lines[lines.len() - 1].as_str())
    }
}

/// Append every line of `lines`, indented by `indent` spaces.
fn append_indented(out: &mut Vec<String>, lines: &Vec<String>, indent: usize)
    ensures
        final(out).deep_view() == old(out).deep_view() + spec_indent_all(
            lines.deep_view(),
            indent as nat,
        ),
{
    let ghost base = out.deep_view();
    let ghost dv = lines.deep_view();
    let mut i: usize = 0;
    while i < lines.len()
        invariant
            0 <= i <= lines@.len(),
            dv == lines.deep_view(),
            out.deep_view().len() == base.len() + i as int,
            forall|j: int| 0 <= j < base.len() ==> out.deep_view()[j] == base[j],
            forall|j: int|
                0 <= j < i as int ==> out.deep_view()[base.len() + j] == indented(
                    dv[j],
                    indent as nat,
                ),
        decreases lines@.len() - i,
    {
        proof {
            assert(dv[i as int] == lines@[i as int]@);
        }
        push_line(out, indent_string(lines[i].as_str(), indent));
        i = i + 1;
    }
    proof {
        assert(out.deep_view() =~= base + spec_indent_all(dv, indent as nat));
    }
}

/// The length of the longest prefix of `l` that is either empty or ends in an
/// indented line.
fn trimmed_len(l: &Vec<String>) -> (r: usize)
    ensures
        r <= l@.len(),
        spec_trim_to_indented(l.deep_view()) == l.deep_view().subrange(0, r as int),
{
    let ghost dv = l.deep_view();
    let mut k = l.len();
    proof {
        assert(dv.subrange(0, dv.len() as int) =~= dv);
    }
    while k > 0 && !starts_indented(l[k - 1].as_str())
        invariant
            0 <= k <= l@.len(),
            dv == l.deep_view(),
            spec_trim_to_indented(dv) == spec_trim_to_indented(dv.subrange(0, k as int)),
        decreases k,
    {
        proof {
            let cur = dv.subrange(0, k as int);
            assert(cur.last() == dv[k as int - 1]);
            assert(dv[k as int - 1] == l@[k as int - 1]@);
            assert(cur.drop_last() =~= dv.subrange(0, k as int - 1));
        }
        k = k - 1;
    }
    proof {
        let cur = dv.subrange(0, k as int);
        if k > 0 {
            assert(cur.last() == dv[k as int - 1]);
            assert(dv[k as int - 1] == l@[k as int - 1]@);
        }
        assert(spec_trim_to_indented(cur) == cur);
    }
    k
}

/// The opening fragment: the summary of what stands before the inner
/// comments, the inner comments themselves when requested, and an ellipsis
/// marker unless the summary already ends collapsed.
fn get_begin_body_lines(component: &Component, include_comments: bool) -> (r: Vec<String>)
    requires
        component_wf_shallow(component@),
    ensures
        r.deep_view() == spec_begin_body_lines(component@, include_comments),
{
    let ghost c = component@;
    if component.is_root {
        let mut l: Vec<String> = Vec::new();
        proof {
            assert(l.deep_view() =~= Seq::<Seq<char>>::empty());
        }
        if include_comments {
            append_indented(&mut l, &component.inner_comments, component.indent);
        }
        push_line(&mut l, indent_string("...", component.indent));
        proof {
            assert(l.deep_view() =~= spec_begin_body_lines(c, include_comments));
        }
        l
    } else {
        match component.inner_comments_range {
            Some((start, _)) => {
                let head = clone_line_range(&component.body_lines, 0, start);
                let mut l = summarize_lines(&head, component.indent, None);
                if include_comments {
                    append_indented(&mut l, &component.inner_comments, component.indent);
                    push_line(&mut l, indent_string("...", component.indent));
                    proof {
                        assert(l.deep_view() =~= spec_begin_body_lines(c, include_comments));
                    }
                } else {
                    // add the ... block if needed
                    if !is_last_indented_block(&l) {
                        push_line(&mut l, indent_string("...", component.indent));
                        proof {
                            assert(l.deep_view() =~= spec_begin_body_lines(c, include_comments));
                        }
                    } else {
                        proof {
                            assert(l.deep_view() =~= spec_begin_body_lines(c, include_comments));
                        }
                    }
                }
                l
            },
            None => {
                let full = summarize_lines(&component.body_lines, component.indent, None);
                let keep = trimmed_len(&full);
                let l = clone_line_range(&full, 0, keep);
                proof {
                    assert(l.deep_view() =~= spec_begin_body_lines(c, include_comments));
                }
                l
            },
        }
    }
}

/// The closing fragment: for a component with a known inner-comment range,
/// the summary of the body after it; otherwise an ellipsis marker followed by
/// what stands after the last collapsed block of the body summary.
fn get_end_body_lines(component: &Component) -> (r: Vec<String>)
    requires
        component_wf_shallow(component@),
    ensures
        r.deep_view() == spec_end_body_lines(component@),
{
    let ghost c = component@;
    if component.is_root {
        let mut r: Vec<String> = Vec::new();
        push_line(&mut r, indent_string("...", component.indent));
        proof {
            assert(r.deep_view() =~= spec_end_body_lines(c));
        }
        return r;
    }
    if let Some((_, end)) = component.inner_comments_range {
        let tail = clone_line_range(&component.body_lines, end, component.body_lines.len());
        return summarize_lines(&tail, component.indent, None);
    }
    let l = summarize_lines(&component.body_lines, component.indent, None);
    // only keep what follows the last collapsed block
    let keep = trimmed_len(&l);
    let mut r: Vec<String> = Vec::new();
    push_line(&mut r, indent_string("...", component.indent));
    let mut tail_lines = clone_line_range(&l, keep, l.len());
    let ghost r_head = r.deep_view();
    let ghost tail_dv = tail_lines.deep_view();
    r.append(&mut tail_lines);
    proof {
        let ldv = l.deep_view();
        let goal = r_head + ldv.skip(keep as int);
        assert(ldv.skip(keep as int) =~= ldv.subrange(keep as int, ldv.len() as int));
        assert(tail_dv.len() == ldv.len() - keep as int);
        assert(r.deep_view().len() == 1 + tail_dv.len());
        assert forall|j: int| 0 <= j < r.deep_view().len() implies #[trigger] r.deep_view()[j]
            == goal[j] by {
            assert(r.deep_view()[j] == r@[j]@);
            if j >= 1 {
                assert(r@[j]@ == tail_dv[j - 1]);
                assert(tail_dv[j - 1] == ldv[keep as int + j - 1]);
            }
        }
        assert(r.deep_view() =~= goal);
        assert(r.deep_view() =~= spec_end_body_lines(c));
    }
    r
}

/// Implementation of Context
impl Context {
    /// Create a context from a component.
    pub fn from_component(component: &Component, include_comments: bool) -> (r: Self)
        requires
            component_wf_shallow(component@),
        ensures
            r@ == spec_context_from(component@, include_comments),
    {
        let begin_body_lines = get_begin_body_lines(component, include_comments);
        let end_body_lines = get_end_body_lines(component);

        if include_comments {
            let r = Context {
                outer_comments: clone_line_range(
                    &component.outer_comments,
                    0,
                    component.outer_comments.len(),
                ),
                begin_body_lines,
                indent: component.indent,
                end_body_lines,
            };
            proof {
                assert(component.outer_comments.deep_view().subrange(
                    0,
                    component.outer_comments@.len() as int,
                ) =~= component.outer_comments.deep_view());
                assert(r@ =~= spec_context_from(component@, include_comments));
            }
            r
        } else {
            let r = Context {
                outer_comments: Vec::new(),
                begin_body_lines,
                indent: component.indent,
                end_body_lines,
            };
            proof {
                assert(r.outer_comments.deep_view() =~= Seq::<Seq<char>>::empty());
                assert(r@ =~= spec_context_from(component@, include_comments));
            }
            r
        }
    }
}

} // verus!
