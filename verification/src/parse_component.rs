//! The component tree: parsing a body of lines into nested components.

use vstd::prelude::*;

use crate::config::Config;
use crate::config::ConfigView;
use crate::find_comments::CommentMatcherView;
use crate::find_comments::CommentPattern;
use crate::find_comments::find_comments;
use crate::find_comments::lemma_find_comments_range;
use crate::find_comments::lemma_scan_no_openers;
use crate::find_comments::opens_comment;
use crate::find_comments::spec_find_comments;
use crate::find_indentation::find_indentation;
use crate::find_indentation::spec_find_indentation;
use crate::pattern::Pattern;
use crate::pattern::regex_match;
use crate::text::clone_line_range;
use crate::text::line_blank;
use crate::text::line_indented;
use crate::text::push_line;
use crate::text::starts_indented;
use crate::unindent_lines::spec_unindent;
use crate::unindent_lines::spec_unindent_from;
use crate::unindent_lines::unindent_lines;

verus! {

/// No ignore pattern matches the line.
pub open spec fn spec_line_kept(ignore: Seq<Seq<char>>, l: Seq<char>) -> bool {
    forall|k: int| 0 <= k < ignore.len() ==> !regex_match(ignore[k], l)
}

/// The lines from position `i` on that no ignore pattern matches, in order.
pub open spec fn spec_filter_ignored_from(
    lines: Seq<Seq<char>>,
    ignore: Seq<Seq<char>>,
    i: int,
) -> Seq<Seq<char>>
    decreases lines.len() - i,
{
    if i < 0 || i >= lines.len() {
        Seq::empty()
    } else if spec_line_kept(ignore, lines[i]) {
        seq![lines[i]] + spec_filter_ignored_from(lines, ignore, i + 1)
    } else {
        spec_filter_ignored_from(lines, ignore, i + 1)
    }
}

/// The lines that no ignore pattern matches, in order.
pub open spec fn spec_filter_ignored(lines: Seq<Seq<char>>, ignore: Seq<Seq<char>>) -> Seq<
    Seq<char>,
> {
    spec_filter_ignored_from(lines, ignore, 0)
}

/// The body a component is parsed on: unindented, with ignored lines dropped.
pub open spec fn spec_processed_body(
    body: Seq<Seq<char>>,
    indent: nat,
    ignore: Seq<Seq<char>>,
) -> Seq<Seq<char>> {
    spec_filter_ignored(spec_unindent(body, indent), ignore)
}

/// Filtering keeps at most as many lines as it is given.
pub proof fn lemma_filter_ignored_len(lines: Seq<Seq<char>>, ignore: Seq<Seq<char>>, i: int)
    requires
        0 <= i <= lines.len(),
    ensures
        spec_filter_ignored_from(lines, ignore, i).len() <= lines.len() - i,
    decreases lines.len() - i,
{
    if i < lines.len() {
        lemma_filter_ignored_len(lines, ignore, i + 1);
    }
}

/// Unindenting keeps at most as many lines as it is given.
pub proof fn lemma_unindent_len(lines: Seq<Seq<char>>, indent: nat, i: int, prev_removed: bool)
    requires
        0 <= i <= lines.len(),
    ensures
        spec_unindent_from(lines, indent, i, prev_removed).len() <= lines.len() - i,
    decreases lines.len() - i,
{
    if i < lines.len() {
        lemma_unindent_len(lines, indent, i + 1, prev_removed);
        lemma_unindent_len(lines, indent, i + 1, false);
        lemma_unindent_len(lines, indent, i + 1, true);
    }
}

/// The processed body is no longer than the body itself.
pub proof fn lemma_processed_body_len(body: Seq<Seq<char>>, indent: nat, ignore: Seq<Seq<char>>)
    ensures
        spec_processed_body(body, indent, ignore).len() <= body.len(),
{
    lemma_unindent_len(body, indent, 0, true);
    lemma_filter_ignored_len(spec_unindent(body, indent), ignore, 0);
}

/// The first comment block at or after line `from` that introduces a child:
/// the line just after the block must exist, be non-blank and unindented.
/// A block that fails the test is skipped and the scan resumes past it.
pub open spec fn spec_find_next_child(
    lines: Seq<Seq<char>>,
    m: CommentMatcherView,
    from: int,
) -> Option<(int, int)>
    decreases lines.len() - from,
{
    if from < 0 || from > lines.len() {
        None
    } else {
        match spec_find_comments(lines.skip(from), m, 0) {
            Some((s, e)) => {
                let abs_s = from + s;
                let abs_e = from + e;
                proof {
                    lemma_find_comments_range(lines.skip(from), m, 0, 0);
                }
                if abs_e < lines.len() && !line_blank(lines[abs_e]) && !line_indented(
                    lines[abs_e],
                ) {
                    Some((abs_s, abs_e))
                } else {
                    spec_find_next_child(lines, m, abs_e)
                }
            },
            None => None,
        }
    }
}

/// An accepted child comment block lies within the input, is never empty, and
/// is followed by at least one more line.
pub proof fn lemma_find_next_child_range(lines: Seq<Seq<char>>, m: CommentMatcherView, from: int)
    ensures
        spec_find_next_child(lines, m, from) matches Some((s, e)) ==> from <= s < e
            < lines.len(),
    decreases lines.len() - from,
{
    if 0 <= from <= lines.len() {
        lemma_find_comments_range(lines.skip(from), m, 0, 0);
        match spec_find_comments(lines.skip(from), m, 0) {
            Some((s, e)) => {
                lemma_find_next_child_range(lines, m, from + e);
            },
            None => {},
        }
    }
}

/// Mathematical model of a [`Component`]: every line is a sequence of
/// characters and the children are modelled recursively.
#[verifier::ext_equal]
pub ghost struct ComponentView {
    pub is_root: bool,
    pub outer_comments: Seq<Seq<char>>,
    pub body_lines: Seq<Seq<char>>,
    pub inner_comments: Seq<Seq<char>>,
    pub inner_comments_range: Option<(int, int)>,
    pub children: Seq<ComponentView>,
    pub indent: nat,
}

/// The parse of one component, recursively.
///
/// The inner comment range is located on the raw body (skipping `indent`
/// characters per line); the inner comments themselves and the children are
/// located on the processed body. The stored body keeps the raw lines.
pub open spec fn spec_parse(
    outer: Seq<Seq<char>>,
    body: Seq<Seq<char>>,
    indent: nat,
    is_root: bool,
    cfg: ConfigView,
) -> ComponentView
    decreases body.len(), 1int, 0int,
{
    let icr = spec_find_comments(body, cfg.inner_comments, indent);
    let ub = spec_processed_body(body, indent, cfg.ignore_lines);
    let inner0 = spec_find_comments(ub, cfg.inner_comments, 0);
    let inner_comments = match inner0 {
        Some((s, e)) => ub.subrange(s, e),
        None => Seq::empty(),
    };
    let search_from = match inner0 {
        Some((s, e)) => e,
        None => 0,
    };
    let children = match spec_find_next_child(ub, cfg.outer_comments, search_from) {
        Some((cs, ce)) => {
            proof {
                lemma_processed_body_len(body, indent, cfg.ignore_lines);
                lemma_find_next_child_range(ub, cfg.outer_comments, search_from);
            }
            spec_children(ub, cs, ce, cfg)
        },
        None => Seq::empty(),
    };
    ComponentView {
        is_root,
        outer_comments: outer,
        body_lines: body,
        inner_comments,
        inner_comments_range: icr,
        children,
        indent,
    }
}

/// The children carved out of a processed body, starting from an accepted
/// comment block spanning `[cs, ce)`: each child's outer comments are the
/// block, its body runs to the start of the next accepted block (or the end
/// of input), and its indentation is probed from its body.
pub open spec fn spec_children(
    ub: Seq<Seq<char>>,
    cs: int,
    ce: int,
    cfg: ConfigView,
) -> Seq<ComponentView>
    decreases ub.len(), 0int, ub.len() - ce,
{
    if !(0 <= cs <= ce && 1 <= ce && ce < ub.len()) {
        Seq::empty()
    } else {
        let outer = ub.subrange(cs, ce);
        match spec_find_next_child(ub, cfg.outer_comments, ce) {
            Some((s, e)) => {
                let body = ub.subrange(ce, s);
                proof {
                    lemma_find_next_child_range(ub, cfg.outer_comments, ce);
                }
                seq![spec_parse(outer, body, spec_find_indentation(body), false, cfg)]
                    + spec_children(ub, s, e, cfg)
            },
            None => {
                let body = ub.subrange(ce, ub.len() as int);
                seq![spec_parse(outer, body, spec_find_indentation(body), false, cfg)]
            },
        }
    }
}

/// Data of a component.
pub struct Component {
    /// If the component is the root file
    pub is_root: bool,
    /// Outer comments
    pub outer_comments: Vec<String>,
    /// Body lines (unparsed); includes inner comment lines
    pub body_lines: Vec<String>,
    /// Inner comments; these are unindented
    pub inner_comments: Vec<String>,
    /// Range of lines for inner comments in the body lines
    pub inner_comments_range: Option<(usize, usize)>,
    /// Child components
    pub children: Vec<Component>,
    /// Indentation from parent
    pub indent: usize,
}

/// Appending a component appends its model.
pub proof fn lemma_component_views_push(s: Seq<Component>, c: Component)
    ensures
        component_views(s.push(c)) == component_views(s).push(c.model()),
{
    assert(component_views(s.push(c)) =~= component_views(s).push(c.model()));
}

/// The models of a sequence of components, in order.
pub open spec fn component_views(s: Seq<Component>) -> Seq<ComponentView>
    decreases s,
{
    Seq::new(
        s.len(),
        |i: int|
            if 0 <= i < s.len() {
                s[i].model()
            } else {
                arbitrary()
            },
    )
}

impl Component {
    /// The mathematical model of this component.
    pub open spec fn model(&self) -> ComponentView
        decreases self,
    {
        ComponentView {
            is_root: self.is_root,
            outer_comments: self.outer_comments.deep_view(),
            body_lines: self.body_lines.deep_view(),
            inner_comments: self.inner_comments.deep_view(),
            inner_comments_range: match self.inner_comments_range {
                Some((s, e)) => Some((s as int, e as int)),
                None => None,
            },
            children: component_views(self.children@),
            indent: self.indent as nat,
        }
    }
}

impl View for Component {
    type V = ComponentView;

    open spec fn view(&self) -> ComponentView {
        self.model()
    }
}

/// Whether any of the ignore patterns matches the line.
fn line_ignored(line: &str, ignore: &Vec<Pattern>) -> (r: bool)
    ensures
        r == !spec_line_kept(ignore.deep_view(), line@),
{
    let mut k: usize = 0;
    while k < ignore.len()
        invariant
            0 <= k <= ignore@.len(),
            forall|j: int| 0 <= j < k as int ==> !regex_match(ignore.deep_view()[j], line@),
        decreases ignore@.len() - k,
    {
        proof {
            assert(ignore.deep_view()[k as int] == ignore@[k as int]@);
        }
        if ignore[k].is_match(line) {
            return true;
        }
        k = k + 1;
    }
    false
}

/// Drop every line that an ignore pattern matches.
fn filter_ignored(lines: &Vec<String>, ignore: &Vec<Pattern>) -> (r: Vec<String>)
    ensures
        r.deep_view() == spec_filter_ignored(lines.deep_view(), ignore.deep_view()),
{
    let ghost dv = lines.deep_view();
    let ghost ig = ignore.deep_view();
    let mut out: Vec<String> = Vec::new();
    let mut i: usize = 0;
    proof {
        assert(out.deep_view() =~= Seq::<Seq<char>>::empty());
        assert(out.deep_view() + spec_filter_ignored_from(dv, ig, 0) =~= spec_filter_ignored_from(
            dv,
            ig,
            0,
        ));
    }
    while i < lines.len()
        invariant
            0 <= i <= lines@.len(),
            dv == lines.deep_view(),
            ig == ignore.deep_view(),
            spec_filter_ignored(dv, ig) == out.deep_view() + spec_filter_ignored_from(
                dv,
                ig,
                i as int,
            ),
        decreases lines@.len() - i,
    {
        proof {
            assert(dv[i as int] == lines@[i as int]@);
        }
        let ghost pre_out = out.deep_view();
        let line = &lines[i];
        if !line_ignored(line.as_str(), ignore) {
            push_line(&mut out, line.clone());
            proof {
                assert(pre_out + spec_filter_ignored_from(dv, ig, i as int) =~= out.deep_view()
                    + spec_filter_ignored_from(dv, ig, i as int + 1));
            }
        }
        i = i + 1;
    }
    proof {
        assert(spec_filter_ignored_from(dv, ig, i as int) =~= Seq::<Seq<char>>::empty());
        assert(out.deep_view() + spec_filter_ignored_from(dv, ig, i as int) =~= out.deep_view());
    }
    out
}

/// Locate the next child's outer comment block at or after `from`.
///
/// Returns the start and end indices of the next child's outer comments, or
/// `None` if there are no more children.
///
/// The criteria for a child: it has outer comments, and the line after the
/// outer comment exists, is not empty, and has no indent.
fn find_next_child_outer_comment(lines: &Vec<String>, pattern: &CommentPattern, from: usize) -> (r:
    Option<(usize, usize)>)
    requires
        from <= lines@.len(),
    ensures
        ({
            let sr = spec_find_next_child(lines.deep_view(), pattern@, from as int);
            match r {
                Some((s, e)) => sr == Some((s as int, e as int)) && from <= s < e
                    < lines@.len(),
                None => sr is None,
            }
        }),
{
    let ghost dv = lines.deep_view();
    let ghost m = pattern@;
    let mut comment_end = from;
    while comment_end < lines.len()
        invariant
            from <= comment_end <= lines@.len(),
            dv == lines.deep_view(),
            m == pattern@,
            spec_find_next_child(dv, m, from as int) == spec_find_next_child(
                dv,
                m,
                comment_end as int,
            ),
        decreases lines@.len() - comment_end,
    {
        let rest = clone_line_range(lines, comment_end, lines.len());
        proof {
            assert(rest.deep_view() =~= dv.skip(comment_end as int));
        }
        match find_comments(&rest, pattern, 0) {
            Some((s, e)) => {
                let abs_s = comment_end + s;
                let abs_e = comment_end + e;
                let mut accepted = false;
                if abs_e < lines.len() {
                    let next_line = &lines[abs_e];
                    proof {
                        assert(dv[abs_e as int] == lines@[abs_e as int]@);
                    }
                    if next_line.as_str().unicode_len() > 0 && !starts_indented(
                        next_line.as_str(),
                    ) {
                        accepted = true;
                    }
                }
                if accepted {
                    proof {
                        lemma_find_next_child_range(dv, m, comment_end as int);
                    }
                    return Some((abs_s, abs_e));
                }
                comment_end = abs_e;
            },
            None => {
                return None;
            },
        }
    }
    proof {
        assert(dv.skip(comment_end as int).len() == 0);
        assert(spec_find_comments(dv.skip(comment_end as int), m, 0) is None);
    }
    None
}

/// Every kept line is one of the given lines.
pub proof fn lemma_filter_ignored_mem(lines: Seq<Seq<char>>, ignore: Seq<Seq<char>>, i: int)
    ensures
        forall|k: int|
            0 <= k < spec_filter_ignored_from(lines, ignore, i).len() ==> exists|j0: int|
                0 <= j0 < lines.len() && #[trigger] spec_filter_ignored_from(lines, ignore, i)[k]
                    == lines[j0],
    decreases lines.len() - i,
{
    if 0 <= i < lines.len() {
        lemma_filter_ignored_mem(lines, ignore, i + 1);
        let cur = spec_filter_ignored_from(lines, ignore, i);
        let rest = spec_filter_ignored_from(lines, ignore, i + 1);
        assert forall|k: int| 0 <= k < cur.len() implies exists|j0: int|
            0 <= j0 < lines.len() && #[trigger] cur[k] == lines[j0] by {
            if spec_line_kept(ignore, lines[i]) {
                if k == 0 {
                    assert(cur[0] == lines[i]);
                } else {
                    assert(cur[k] == rest[k - 1]);
                }
            } else {
                assert(cur[k] == rest[k]);
            }
        }
    }
}

/// A body without any comment marker (no line opens an inner or an outer
/// comment block) parses to a root that keeps the body verbatim and has no
/// children and no inner comments.
pub proof fn lemma_parse_no_markers(lines: Seq<Seq<char>>, cfg: ConfigView)
    requires
        forall|i: int|
            0 <= i < lines.len() ==> !opens_comment(cfg.inner_comments, #[trigger] lines[i], 0),
        forall|i: int|
            0 <= i < lines.len() ==> !opens_comment(cfg.outer_comments, #[trigger] lines[i], 0),
    ensures
        spec_parse(Seq::empty(), lines, 0, true, cfg).body_lines == lines,
        spec_parse(Seq::empty(), lines, 0, true, cfg).children.len() == 0,
        spec_parse(Seq::empty(), lines, 0, true, cfg).inner_comments.len() == 0,
        spec_parse(Seq::empty(), lines, 0, true, cfg).inner_comments_range is None,
        spec_parse(Seq::empty(), lines, 0, true, cfg).is_root,
        spec_parse(Seq::empty(), lines, 0, true, cfg).indent == 0,
{
    lemma_scan_no_openers(lines, cfg.inner_comments, 0, 0);
    assert(spec_find_comments(lines, cfg.inner_comments, 0) is None);
    let ub = spec_processed_body(lines, 0, cfg.ignore_lines);
    lemma_filter_ignored_mem(lines, cfg.ignore_lines, 0);
    assert forall|j: int| 0 <= j < ub.len() implies !opens_comment(
        cfg.outer_comments,
        #[trigger] ub[j],
        0,
    ) by {
        assert(exists|j0: int| 0 <= j0 < lines.len() && ub[j] == lines[j0]);
    }
    lemma_scan_no_openers(ub, cfg.outer_comments, 0, 0);
    assert(ub.skip(0) =~= ub);
    assert(spec_find_comments(ub, cfg.inner_comments, 0) is None) by {
        assert forall|j: int| 0 <= j < ub.len() implies !opens_comment(
            cfg.inner_comments,
            #[trigger] ub[j],
            0,
        ) by {
            assert(exists|j0: int| 0 <= j0 < lines.len() && ub[j] == lines[j0]);
        }
        lemma_scan_no_openers(ub, cfg.inner_comments, 0, 0);
    }
    assert(spec_find_next_child(ub, cfg.outer_comments, 0) is None);
}

/// The inner comment range of the node itself, when present, is a valid
/// range into its body lines.
pub open spec fn component_wf_shallow(c: ComponentView) -> bool {
    match c.inner_comments_range {
        Some((s, e)) => 0 <= s <= e <= c.body_lines.len(),
        None => true,
    }
}

/// Every node of the component tree is well-formed.
pub open spec fn component_wf(c: ComponentView) -> bool
    decreases c,
{
    component_wf_shallow(c) && (forall|i: int|
        0 <= i < c.children.len() ==> component_wf(#[trigger] c.children[i]))
}

/// A parsed component tree is well-formed in every node.
pub proof fn lemma_spec_parse_wf(
    outer: Seq<Seq<char>>,
    body: Seq<Seq<char>>,
    indent: nat,
    is_root: bool,
    cfg: ConfigView,
)
    ensures
        component_wf(spec_parse(outer, body, indent, is_root, cfg)),
    decreases body.len(), 1int, 0int,
{
    let cv = spec_parse(outer, body, indent, is_root, cfg);
    lemma_find_comments_range(body, cfg.inner_comments, indent, 0);
    assert(component_wf_shallow(cv));
    let ub = spec_processed_body(body, indent, cfg.ignore_lines);
    let inner0 = spec_find_comments(ub, cfg.inner_comments, 0);
    let search_from = match inner0 {
        Some((s, e)) => e,
        None => 0,
    };
    match spec_find_next_child(ub, cfg.outer_comments, search_from) {
        Some((cs, ce)) => {
            lemma_processed_body_len(body, indent, cfg.ignore_lines);
            lemma_find_next_child_range(ub, cfg.outer_comments, search_from);
            lemma_spec_children_wf(ub, cs, ce, cfg);
            assert(cv.children == spec_children(ub, cs, ce, cfg));
        },
        None => {
            assert(cv.children.len() == 0);
        },
    }
    assert(component_wf(cv));
}

/// Every child carved out of a processed body is well-formed in every node.
pub proof fn lemma_spec_children_wf(ub: Seq<Seq<char>>, cs: int, ce: int, cfg: ConfigView)
    ensures
        forall|i: int|
            0 <= i < spec_children(ub, cs, ce, cfg).len() ==> component_wf(
                #[trigger] spec_children(ub, cs, ce, cfg)[i],
            ),
    decreases ub.len(), 0int, ub.len() - ce,
{
    if 0 <= cs <= ce && 1 <= ce && ce < ub.len() {
        let cur = spec_children(ub, cs, ce, cfg);
        let outer = ub.subrange(cs, ce);
        match spec_find_next_child(ub, cfg.outer_comments, ce) {
            Some((s, e)) => {
                let body = ub.subrange(ce, s);
                lemma_find_next_child_range(ub, cfg.outer_comments, ce);
                lemma_spec_parse_wf(outer, body, spec_find_indentation(body), false, cfg);
                lemma_spec_children_wf(ub, s, e, cfg);
                let rest = spec_children(ub, s, e, cfg);
                assert forall|i: int| 0 <= i < cur.len() implies component_wf(
                    #[trigger] cur[i],
                ) by {
                    if i == 0 {
                        assert(cur[0] == spec_parse(
                            outer,
                            body,
                            spec_find_indentation(body),
                            false,
                            cfg,
                        ));
                    } else {
                        assert(cur[i] == rest[i - 1]);
                    }
                }
            },
            None => {
                let body = ub.subrange(ce, ub.len() as int);
                lemma_spec_parse_wf(outer, body, spec_find_indentation(body), false, cfg);
                assert(cur[0] == spec_parse(outer, body, spec_find_indentation(body), false, cfg));
            },
        }
    }
}

/// Parse a component body.
///
/// The body lines passed in should be the indented lines that will be stored
/// directly in the component. The indent is used to process the lines, and
/// the parsing is done on the unindented lines.
pub fn parse_component(
    outer_comments: Vec<String>,
    body_lines: Vec<String>,
    indent: usize,
    is_root: bool,
    config: &Config,
) -> (r: Component)
    ensures
        r@ == spec_parse(
            outer_comments.deep_view(),
            body_lines.deep_view(),
            indent as nat,
            is_root,
            config@,
        ),
    decreases body_lines@.len(),
{
    let ghost bv = body_lines.deep_view();
    let ghost cfg = config@;
    // need to find the inner range first since the range will be different
    // when unindented
    let inner_comments_range = find_comments(&body_lines, &config.inner_comments, indent);
    let unindented = unindent_lines(&body_lines, indent);
    let unindented = filter_ignored(&unindented, &config.ignore_lines);
    let ghost ub = unindented.deep_view();
    proof {
        assert(ub == spec_processed_body(bv, indent as nat, cfg.ignore_lines));
        lemma_processed_body_len(bv, indent as nat, cfg.ignore_lines);
    }

    // find inner comments
    let first_inner = find_comments(&unindented, &config.inner_comments, 0);
    let mut inner_end: usize = 0;
    let inner_comments = match first_inner {
        Some((s, e)) => {
            inner_end = e;
            clone_line_range(&unindented, s, e)
        },
        None => {
            let empty_lines: Vec<String> = Vec::new();
            proof {
                assert(empty_lines.deep_view() =~= Seq::<Seq<char>>::empty());
            }
            empty_lines
        },
    };

    // skip to the first child
    match find_next_child_outer_comment(&unindented, &config.outer_comments, inner_end) {
        None => {
            // no children
            let children: Vec<Component> = Vec::new();
            proof {
                assert(component_views(children@) =~= Seq::<ComponentView>::empty());
            }
            let r = Component {
                is_root,
                outer_comments,
                body_lines,
                inner_comments,
                inner_comments_range,
                children,
                indent,
            };
            proof {
                assert(r@ =~= spec_parse(
                    r.outer_comments.deep_view(),
                    bv,
                    indent as nat,
                    is_root,
                    cfg,
                ));
            }
            r
        },
        Some((first_start, first_end)) => {
            let mut comment_start = first_start;
            let mut comment_end = first_end;
            let mut children: Vec<Component> = Vec::new();
            proof {
                assert(component_views(children@) =~= Seq::<ComponentView>::empty());
                assert(component_views(children@) + spec_children(
                    ub,
                    first_start as int,
                    first_end as int,
                    cfg,
                ) =~= spec_children(ub, first_start as int, first_end as int, cfg));
            }
            while comment_end < unindented.len()
                invariant
                    0 <= comment_start <= comment_end <= ub.len(),
                    1 <= comment_end,
                    ub == unindented.deep_view(),
                    ub.len() <= bv.len(),
                    bv == body_lines.deep_view(),
                    cfg == config@,
                    spec_children(ub, first_start as int, first_end as int, cfg)
                        == component_views(children@) + spec_children(
                        ub,
                        comment_start as int,
                        comment_end as int,
                        cfg,
                    ),
                decreases ub.len() - comment_end,
            {
                // extract child lines
                let child_outer_comments = clone_line_range(&unindented, comment_start, comment_end);
                let ghost pre_children = children@;
                // try finding the next comment
                match find_next_child_outer_comment(&unindented, &config.outer_comments, comment_end) {
                    Some((next_start, next_end)) => {
                        let child_body_lines = clone_line_range(&unindented, comment_end, next_start);
                        let child_indent = find_indentation(&child_body_lines);
                        let child = parse_component(
                            child_outer_comments,
                            child_body_lines,
                            child_indent,
                            false,
                            config,
                        );
                        children.push(child);
                        proof {
                            lemma_component_views_push(pre_children, child);
                            assert(component_views(pre_children) + spec_children(
                                ub,
                                comment_start as int,
                                comment_end as int,
                                cfg,
                            ) =~= component_views(children@) + spec_children(
                                ub,
                                next_start as int,
                                next_end as int,
                                cfg,
                            ));
                        }
                        comment_start = next_start;
                        comment_end = next_end;
                    },
                    None => {
                        let child_body_lines = clone_line_range(
                            &unindented,
                            comment_end,
                            unindented.len(),
                        );
                        let child_indent = find_indentation(&child_body_lines);
                        let child = parse_component(
                            child_outer_comments,
                            child_body_lines,
                            child_indent,
                            false,
                            config,
                        );
                        children.push(child);
                        proof {
                            lemma_component_views_push(pre_children, child);
                            assert(component_views(pre_children) + spec_children(
                                ub,
                                comment_start as int,
                                comment_end as int,
                                cfg,
                            ) =~= component_views(children@) + spec_children(
                                ub,
                                ub.len() as int,
                                ub.len() as int,
                                cfg,
                            ));
                        }
                        comment_start = unindented.len();
                        comment_end = unindented.len();
                    },
                }
            }
            proof {
                assert(spec_children(ub, comment_start as int, comment_end as int, cfg)
                    =~= Seq::<ComponentView>::empty());
                assert(component_views(children@) =~= spec_children(
                    ub,
                    first_start as int,
                    first_end as int,
                    cfg,
                ));
            }
            let r = Component {
                is_root,
                outer_comments,
                body_lines,
                inner_comments,
                inner_comments_range,
                children,
                indent,
            };
            proof {
                assert(r@ =~= spec_parse(
                    r.outer_comments.deep_view(),
                    bv,
                    indent as nat,
                    is_root,
                    cfg,
                ));
            }
            r
        },
    }
}

impl Clone for Component {
    /// A clone is the same component: it has the same model.
    fn clone(&self) -> (r: Self)
        ensures
            r@ == self@,
        decreases self,
    {
        let mut children: Vec<Component> = Vec::new();
        let mut i: usize = 0;
        while i < self.children.len()
            invariant
                i <= self.children.len(),
                children@.len() == i as int,
                forall|j: int| 0 <= j < i as int ==> children@[j]@ == self.children@[j]@,
            decreases self.children.len() - i,
        {
            children.push(self.children[i].clone());
            i = i + 1;
        }
        let r = Component {
            is_root: self.is_root,
            outer_comments: self.outer_comments.clone(),
            body_lines: self.body_lines.clone(),
            inner_comments: self.inner_comments.clone(),
            inner_comments_range: self.inner_comments_range,
            children,
            indent: self.indent,
        };
        proof {
            assert(r.children@.len() == self.children@.len());
            assert(self@.children.len() == self.children@.len());
            assert(r@.children.len() == r.children@.len());
            assert forall|j: int| 0 <= j < r@.children.len() implies r@.children[j]
                == self@.children[j] by {
                assert(0 <= j < r.children@.len());
                assert(r@.children[j] == r.children@[j]@);
                assert(self@.children[j] == self.children@[j]@);
                assert(r.children@[j]@ == self.children@[j]@);
            }
            assert(r@.children =~= self@.children);
            assert(r@.outer_comments =~= self@.outer_comments);
            assert(r@.body_lines =~= self@.body_lines);
            assert(r@.inner_comments =~= self@.inner_comments);
            assert(r@ =~= self@);
        }
        r
    }
}

} // verus!
