//! Logic for rendering output in different formats.

use vstd::prelude::*;

use crate::context::Context;
use crate::context::ContextView;
use crate::find_component::context_views;
use crate::indent_string;
use crate::parse_component::Component;
use crate::parse_component::ComponentView;
use crate::summarize_lines::exclude_view;
use crate::summarize_lines::spec_summarize;
use crate::summarize_lines::summarize_lines;
use crate::text::append_lines;
use crate::text::clone_line_range;
use crate::text::indented;
use crate::text::push_line;

verus! {

/// Output format
#[derive(Debug, Clone)]
pub enum Format {
    /// Comments + abbreviated code
    Summary,
    /// Comment only format
    Comment,
    /// Comment + all code
    Detail,
}

impl Default for Format {
    /// The default format is the summary.
    fn default() -> (r: Self)
        ensures
            r is Summary,
    {
        Format::Summary
    }
}

/// Summary format: the outer comments, then the body summarized with the
/// inner comments kept verbatim.
pub open spec fn spec_format_summary(c: ComponentView) -> Seq<Seq<char>> {
    c.outer_comments + spec_summarize(c.body_lines, c.indent, c.inner_comments_range)
}

/// Comment format: the outer comments, then the inner comments.
pub open spec fn spec_format_comment(c: ComponentView) -> Seq<Seq<char>> {
    c.outer_comments + c.inner_comments
}

/// Detail format: the outer comments, then the full body.
pub open spec fn spec_format_detail(c: ComponentView) -> Seq<Seq<char>> {
    c.outer_comments + c.body_lines
}

/// The formatted lines of a component, by format.
pub open spec fn spec_format(f: Format, c: ComponentView) -> Seq<Seq<char>> {
    match f {
        Format::Summary => spec_format_summary(c),
        Format::Comment => spec_format_comment(c),
        Format::Detail => spec_format_detail(c),
    }
}

/// Every line prefixed with `n` spaces.
pub open spec fn spec_indent_lines(lines: Seq<Seq<char>>, n: nat) -> Seq<Seq<char>> {
    Seq::new(lines.len(), |i: int| indented(lines[i], n))
}

/// Indenting by zero spaces leaves every line unchanged.
pub proof fn lemma_indent_lines_zero(lines: Seq<Seq<char>>)
    ensures
        spec_indent_lines(lines, 0) == lines,
{
    assert forall|i: int| 0 <= i < lines.len() implies #[trigger] spec_indent_lines(lines, 0)[i]
        == lines[i] by {
        assert(indented(lines[i], 0) =~= lines[i]);
    }
    assert(spec_indent_lines(lines, 0) =~= lines);
}

/// The total indentation of the contexts from position `i` on.
pub open spec fn spec_indent_sum(ctxs: Seq<ContextView>, i: int) -> int
    decreases ctxs.len() - i,
{
    if i < 0 || i >= ctxs.len() {
        0
    } else {
        ctxs[i].indent + spec_indent_sum(ctxs, i + 1)
    }
}

/// The opening bracket lines of the contexts from position `i` on, outermost
/// (last) first: each context's outer comments and begin fragment, indented
/// by the total indentation of the contexts outside it.
pub open spec fn spec_context_heads(ctxs: Seq<ContextView>, i: int) -> Seq<Seq<char>>
    decreases ctxs.len() - i,
{
    if i < 0 || i >= ctxs.len() {
        Seq::empty()
    } else {
        spec_context_heads(ctxs, i + 1) + spec_indent_lines(
            ctxs[i].outer_comments,
            spec_indent_sum(ctxs, i + 1) as nat,
        ) + spec_indent_lines(ctxs[i].begin_body_lines, spec_indent_sum(ctxs, i + 1) as nat)
    }
}

/// The closing bracket lines of the contexts from position `i` on, innermost
/// first (so the outermost closes last): each context's end fragment,
/// indented by the total indentation of the contexts outside it.
pub open spec fn spec_context_tails(ctxs: Seq<ContextView>, i: int) -> Seq<Seq<char>>
    decreases ctxs.len() - i,
{
    if i < 0 || i >= ctxs.len() {
        Seq::empty()
    } else {
        spec_indent_lines(ctxs[i].end_body_lines, spec_indent_sum(ctxs, i + 1) as nat)
            + spec_context_tails(ctxs, i + 1)
    }
}

/// A component formatted inside its ancestor contexts: the ancestors' opening
/// fragments outermost first, the component's formatted lines at the total
/// indentation, then the ancestors' closing fragments outermost last.
pub open spec fn spec_format_with_context(
    f: Format,
    c: ComponentView,
    ctxs: Seq<ContextView>,
) -> Seq<Seq<char>> {
    spec_context_heads(ctxs, 0) + spec_indent_lines(
        spec_format(f, c),
        spec_indent_sum(ctxs, 0) as nat,
    ) + spec_context_tails(ctxs, 0)
}

/// Sums of indentations are non-negative.
proof fn lemma_indent_sum_nonneg(ctxs: Seq<ContextView>, i: int)
    ensures
        spec_indent_sum(ctxs, i) >= 0,
    decreases ctxs.len() - i,
{
    if 0 <= i < ctxs.len() {
        lemma_indent_sum_nonneg(ctxs, i + 1);
    }
}

/// Dropping leading contexts cannot increase the total indentation.
proof fn lemma_indent_sum_mono(ctxs: Seq<ContextView>, i: int, j: int)
    requires
        0 <= i <= j,
    ensures
        spec_indent_sum(ctxs, i) >= spec_indent_sum(ctxs, j),
    decreases j - i,
{
    lemma_indent_sum_nonneg(ctxs, i);
    lemma_indent_sum_nonneg(ctxs, j);
    if i < j && i < ctxs.len() {
        lemma_indent_sum_mono(ctxs, i + 1, j);
    }
}

/// Format a component in summary format.
fn format_summary(component: &Component) -> (r: Vec<String>)
    ensures
        r.deep_view() == spec_format_summary(component@),
{
    // add outer comments
    let mut output = clone_line_range(&component.outer_comments, 0, component.outer_comments.len());
    proof {
        assert(output.deep_view() =~= component@.outer_comments);
    }
    // add summary
    let summary = summarize_lines(
        &component.body_lines,
        component.indent,
        component.inner_comments_range,
    );
    proof {
        assert(exclude_view(component.inner_comments_range) == component@.inner_comments_range);
    }
    append_lines(&mut output, summary);
    output
}

/// Format a component in comment-only format.
fn format_comment(component: &Component) -> (r: Vec<String>)
    ensures
        r.deep_view() == spec_format_comment(component@),
{
    // add outer comments
    let mut output = clone_line_range(&component.outer_comments, 0, component.outer_comments.len());
    proof {
        assert(output.deep_view() =~= component@.outer_comments);
    }
    // add inner comments
    let inner = clone_line_range(&component.inner_comments, 0, component.inner_comments.len());
    proof {
        assert(inner.deep_view() =~= component@.inner_comments);
    }
    append_lines(&mut output, inner);
    output
}

/// Format a component in detail format.
fn format_detail(component: &Component) -> (r: Vec<String>)
    ensures
        r.deep_view() == spec_format_detail(component@),
{
    // add outer comments
    let mut output = clone_line_range(&component.outer_comments, 0, component.outer_comments.len());
    proof {
        assert(output.deep_view() =~= component@.outer_comments);
    }
    // add full body, which includes the inner comments
    let body = clone_line_range(&component.body_lines, 0, component.body_lines.len());
    proof {
        assert(body.deep_view() =~= component@.body_lines);
    }
    append_lines(&mut output, body);
    output
}

/// Append every line of `lines`, indented by `indent` spaces.
fn append_lines_indented(out: &mut Vec<String>, lines: &Vec<String>, indent: usize)
    ensures
        final(out).deep_view() == old(out).deep_view() + spec_indent_lines(
            lines.deep_view(),
            indent as nat,
        ),
{
    let ghost base = out.deep_view();
    let ghost dv = lines.deep_view();
    let mut i: usize = 0;
    while i < lines.len()
        invariant
            0 <= i <= lines@.len(),
            dv == lines.deep_view(),
            out.deep_view().len() == base.len() + i as int,
            forall|j: int| 0 <= j < base.len() ==> out.deep_view()[j] == base[j],
            forall|j: int|
                0 <= j < i as int ==> out.deep_view()[base.len() + j] == indented(
                    dv[j],
                    indent as nat,
                ),
        decreases lines@.len() - i,
    {
        proof {
            assert(dv[i as int] == lines@[i as int]@);
        }
        push_line(out, indent_string(lines[i].as_str(), indent));
        i = i + 1;
    }
    proof {
        assert(out.deep_view() =~= base + spec_indent_lines(dv, indent as nat));
    }
}

impl Format {
    /// Format a component without context.
    pub fn format(&self, component: &Component) -> (r: Vec<String>)
        ensures
            r.deep_view() == spec_format(*self, component@),
    {
        let contexts: Vec<Context> = Vec::new();
        let r = self.format_with_context(component, &contexts);
        proof {
            assert(context_views(contexts@) =~= Seq::<ContextView>::empty());
            lemma_indent_lines_zero(spec_format(*self, component@));
            assert(r.deep_view() =~= spec_format(*self, component@));
        }
        r
    }

    /// Format a component with context.
    ///
    /// The ancestor contexts come nearest first; their opening fragments are
    /// rendered outermost first and their closing fragments outermost last,
    /// indenting progressively by each context's indentation.
    pub fn format_with_context(&self, component: &Component, contexts: &Vec<Context>) -> (r: Vec<
        String,
    >)
        requires
            spec_indent_sum(context_views(contexts@), 0) <= usize::MAX,
        ensures
            r.deep_view() == spec_format_with_context(
                *self,
                component@,
                context_views(contexts@),
            ),
    {
        let ghost ctxs = context_views(contexts@);
        let mut output: Vec<String> = Vec::new();
        let mut indent: usize = 0;
        let mut k = contexts.len();
        proof {
            assert(output.deep_view() =~= Seq::<Seq<char>>::empty());
            assert(output.deep_view() =~= spec_context_heads(ctxs, k as int));
        }
        // add the context openings, outermost first
        while k > 0
            invariant
                0 <= k <= contexts@.len(),
                ctxs == context_views(contexts@),
                spec_indent_sum(ctxs, 0) <= usize::MAX,
                indent as int == spec_indent_sum(ctxs, k as int),
                output.deep_view() == spec_context_heads(ctxs, k as int),
            decreases k,
        {
            k = k - 1;
            proof {
                assert(ctxs[k as int] == contexts@[k as int]@);
                lemma_indent_sum_nonneg(ctxs, k as int + 1);
                lemma_indent_sum_mono(ctxs, 0, k as int);
            }
            let context = &contexts[k];
            append_lines_indented(&mut output, &context.outer_comments, indent);
            append_lines_indented(&mut output, &context.begin_body_lines, indent);
            proof {
                assert(output.deep_view() =~= spec_context_heads(ctxs, k as int));
                assert(spec_indent_sum(ctxs, k as int) == ctxs[k as int].indent + spec_indent_sum(
                    ctxs,
                    k as int + 1,
                ));
                assert(indent as int + context.indent as int == spec_indent_sum(ctxs, k as int));
                assert(spec_indent_sum(ctxs, k as int) <= usize::MAX as int);
            }
            indent = indent + context.indent;
        }
        // add the component
        let component_lines = match self {
            Format::Summary => format_summary(component),
            Format::Comment => format_comment(component),
            Format::Detail => format_detail(component),
        };
        append_lines_indented(&mut output, &component_lines, indent);
        // add the context endings, outermost last
        let ghost mid = output.deep_view();
        let mut i: usize = 0;
        while i < contexts.len()
            invariant
                0 <= i <= contexts@.len(),
                ctxs == context_views(contexts@),
                indent as int == spec_indent_sum(ctxs, i as int),
                mid + spec_context_tails(ctxs, 0) == output.deep_view() + spec_context_tails(
                    ctxs,
                    i as int,
                ),
            decreases contexts@.len() - i,
        {
            proof {
                assert(ctxs[i as int] == contexts@[i as int]@);
                lemma_indent_sum_nonneg(ctxs, i as int + 1);
            }
            let ghost pre = output.deep_view();
            let context = &contexts[i];
            indent = indent - context.indent;
            append_lines_indented(&mut output, &context.end_body_lines, indent);
            proof {
                assert(pre + spec_context_tails(ctxs, i as int) =~= output.deep_view()
                    + spec_context_tails(ctxs, i as int + 1));
            }
            i = i + 1;
        }
        proof {
            assert(spec_context_tails(ctxs, i as int) =~= Seq::<Seq<char>>::empty());
            assert(mid + spec_context_tails(ctxs, 0) =~= output.deep_view());
            assert(output.deep_view() =~= spec_format_with_context(*self, component@, ctxs));
        }
        output
    }
}

} // verus!
