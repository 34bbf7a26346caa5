//! Logic for finding a component in the parsed component tree.

use vstd::prelude::*;

use crate::config::Config;
use crate::context::Context;
use crate::context::ContextView;
use crate::context::spec_context_from;
use crate::parse_component::Component;
use crate::parse_component::ComponentView;
use crate::parse_component::component_views;
use crate::parse_component::component_wf;
use crate::text::contains_sub;
use crate::text::str_contains;

verus! {

/// Mathematical model of a [`FindComponentResult`].
pub ghost enum FindResultView {
    Found(ComponentView, Seq<ContextView>),
    NotFound(Seq<char>),
    Multiple(Seq<ComponentView>, Seq<char>),
}

/// The child's body line at offset `k` exists and contains the term.
pub open spec fn child_matches_at(c: ComponentView, k: int, term: Seq<char>) -> bool {
    k < c.body_lines.len() && contains_sub(c.body_lines[k], term)
}

/// The children among the first `j` whose body line at offset `k` contains
/// the term, in order.
pub open spec fn matched_at_prefix(
    children: Seq<ComponentView>,
    j: int,
    k: int,
    term: Seq<char>,
) -> Seq<ComponentView>
    decreases j,
{
    if j <= 0 {
        Seq::empty()
    } else {
        let rest = matched_at_prefix(children, j - 1, k, term);
        if child_matches_at(children[j - 1], k, term) {
            rest.push(children[j - 1])
        } else {
            rest
        }
    }
}

/// The children whose body line at offset `k` contains the term, in order.
pub open spec fn matched_at(children: Seq<ComponentView>, k: int, term: Seq<char>) -> Seq<
    ComponentView,
> {
    matched_at_prefix(children, children.len() as int, k, term)
}

/// The longest body among the first `j` children.
pub open spec fn max_body_len_prefix(children: Seq<ComponentView>, j: int) -> int
    decreases j,
{
    if j <= 0 {
        0
    } else {
        let m = max_body_len_prefix(children, j - 1);
        if children[j - 1].body_lines.len() > m {
            children[j - 1].body_lines.len() as int
        } else {
            m
        }
    }
}

/// The longest body among the children.
pub open spec fn max_body_len(children: Seq<ComponentView>) -> int {
    max_body_len_prefix(children, children.len() as int)
}

/// All children matching at the first offset `k` in `[k, max)` at which any
/// child matches; empty if none matches at any offset.
pub open spec fn spec_find_children_from(
    children: Seq<ComponentView>,
    term: Seq<char>,
    k: int,
    max: int,
) -> Seq<ComponentView>
    decreases max - k,
{
    if k < 0 || k >= max {
        Seq::empty()
    } else {
        let m = matched_at(children, k, term);
        if m.len() > 0 {
            m
        } else {
            spec_find_children_from(children, term, k + 1, max)
        }
    }
}

/// The children of `c` selected by the term: all children matching at the
/// first body-line offset at which any child matches.
pub open spec fn spec_find_children(c: ComponentView, term: Seq<char>) -> Seq<ComponentView> {
    spec_find_children_from(c.children, term, 0, max_body_len(c.children))
}

/// The result of resolving a search path over the tree. The empty path finds
/// the node itself with no context. Otherwise the first term selects
/// children; none found gives `NotFound`, several give `Multiple`, and a
/// unique child is searched recursively with the rest of the path, appending
/// this node's context to a successful result.
pub open spec fn spec_find_component(
    c: ComponentView,
    path: Seq<Seq<char>>,
    include_comments: bool,
) -> FindResultView
    decreases path.len(),
{
    if path.len() == 0 {
        FindResultView::Found(c, Seq::empty())
    } else {
        let m = spec_find_children(c, path[0]);
        if m.len() == 0 {
            FindResultView::NotFound(path[0])
        } else if m.len() == 1 {
            match spec_find_component(m[0], path.drop_first(), include_comments) {
                FindResultView::Found(comp, ctxs) => FindResultView::Found(
                    comp,
                    ctxs.push(spec_context_from(c, include_comments)),
                ),
                r => r,
            }
        } else {
            FindResultView::Multiple(m, path[0])
        }
    }
}

/// Each selected child is one of the children.
pub proof fn lemma_matched_at_prefix_mem(
    children: Seq<ComponentView>,
    j: int,
    k: int,
    term: Seq<char>,
)
    requires
        j <= children.len(),
    ensures
        forall|i: int|
            0 <= i < matched_at_prefix(children, j, k, term).len() ==> exists|j0: int|
                0 <= j0 < children.len() && #[trigger] matched_at_prefix(children, j, k, term)[i]
                    == children[j0],
    decreases j,
{
    if j > 0 {
        lemma_matched_at_prefix_mem(children, j - 1, k, term);
        let m = matched_at_prefix(children, j, k, term);
        let rest = matched_at_prefix(children, j - 1, k, term);
        assert forall|i: int| 0 <= i < m.len() implies exists|j0: int|
            0 <= j0 < children.len() && #[trigger] m[i] == children[j0] by {
            if child_matches_at(children[j - 1], k, term) && i == m.len() - 1 {
                assert(m[i] == children[j - 1]);
            } else {
                assert(m[i] == rest[i]);
            }
        }
    }
}

/// Each child selected by the search is one of the children.
pub proof fn lemma_find_children_from_mem(
    children: Seq<ComponentView>,
    term: Seq<char>,
    k: int,
    max: int,
)
    ensures
        forall|i: int|
            0 <= i < spec_find_children_from(children, term, k, max).len() ==> exists|j0: int|
                0 <= j0 < children.len() && #[trigger] spec_find_children_from(children, term, k, max)[i]
                    == children[j0],
    decreases max - k,
{
    if 0 <= k < max {
        lemma_matched_at_prefix_mem(children, children.len() as int, k, term);
        lemma_find_children_from_mem(children, term, k + 1, max);
        let cur = spec_find_children_from(children, term, k, max);
        let m = matched_at(children, k, term);
        assert forall|i: int| 0 <= i < cur.len() implies exists|j0: int|
            0 <= j0 < children.len() && #[trigger] cur[i] == children[j0] by {
            if m.len() > 0 {
                assert(cur[i] == matched_at_prefix(children, children.len() as int, k, term)[i]);
            } else {
                assert(cur[i] == spec_find_children_from(children, term, k + 1, max)[i]);
            }
        }
    }
}

/// Children selected from a well-formed component are well-formed.
pub proof fn lemma_find_children_wf(c: ComponentView, term: Seq<char>)
    requires
        component_wf(c),
    ensures
        forall|i: int|
            0 <= i < spec_find_children(c, term).len() ==> component_wf(
                #[trigger] spec_find_children(c, term)[i],
            ),
{
    lemma_find_children_from_mem(c.children, term, 0, max_body_len(c.children));
}

/// Searching with an empty path finds the node itself, with no extra context:
/// in particular, searching again with an empty path below a node that a
/// successful find returned is a no-op.
pub proof fn lemma_find_empty_path(c: ComponentView, include_comments: bool)
    ensures
        spec_find_component(c, Seq::empty(), include_comments) == FindResultView::Found(
            c,
            Seq::empty(),
        ),
{
}

/// Result of calling [`find_component`].
pub enum FindComponentResult {
    /// Found a component uniquely.
    ///
    /// The context returned is the reversed path to the file root. The last
    /// element in the context is the file itself.
    Found(Component, Vec<Context>),
    /// No component found.
    ///
    /// Carries the search term that caused the miss.
    NotFound(String),
    /// Found multiple matches at some level.
    ///
    /// Carries all matches at that level, and the search term that caused the
    /// multiple match.
    Multiple(Vec<Component>, String),
}

/// The models of a sequence of contexts, in order.
pub open spec fn context_views(s: Seq<Context>) -> Seq<ContextView> {
    Seq::new(s.len(), |i: int| s[i]@)
}

impl View for FindComponentResult {
    type V = FindResultView;

    open spec fn view(&self) -> FindResultView {
        match self {
            FindComponentResult::Found(c, ctxs) => FindResultView::Found(
                c.model(),
                context_views(ctxs@),
            ),
            FindComponentResult::NotFound(t) => FindResultView::NotFound(t@),
            FindComponentResult::Multiple(cs, t) => FindResultView::Multiple(
                component_views(cs@),
                t@,
            ),
        }
    }
}

/// Find children components of a component based on a search string.
///
/// The substring is first matched against the first body line of each child.
/// If no child is matched, it moves on to the second line, and so on.
///
/// Returns a vector of all matched children.
pub fn find_children(component: &Component, search: &str) -> (r: Vec<Component>)
    ensures
        component_views(r@) == spec_find_children(component@, search@),
{
    let ghost cs = component@.children;
    let ghost term = search@;
    let n = component.children.len();
    proof {
        assert(cs.len() == n as int);
    }

    let mut max_lines: usize = 0;
    let mut j: usize = 0;
    while j < n
        invariant
            0 <= j <= n,
            n == component.children@.len(),
            cs == component@.children,
            max_lines as int == max_body_len_prefix(cs, j as int),
        decreases n - j,
    {
        proof {
            assert(cs[j as int] == component.children@[j as int].model());
        }
        let len = component.children[j].body_lines.len();
        if len > max_lines {
            max_lines = len;
        }
        j = j + 1;
    }

    let mut matched_children: Vec<Component> = Vec::new();
    let mut i: usize = 0;
    proof {
        assert(component_views(matched_children@) =~= Seq::<ComponentView>::empty());
    }
    while i < max_lines
        invariant
            0 <= i <= max_lines,
            n == component.children@.len(),
            cs == component@.children,
            term == search@,
            max_lines as int == max_body_len(cs),
            matched_children@.len() == 0,
            spec_find_children(component@, term) == spec_find_children_from(
                cs,
                term,
                i as int,
                max_lines as int,
            ),
        decreases max_lines - i,
    {
        let mut j: usize = 0;
        while j < n
            invariant
                0 <= j <= n,
                0 <= i < max_lines,
                n == component.children@.len(),
                cs == component@.children,
                term == search@,
                component_views(matched_children@) == matched_at_prefix(cs, j as int, i as int, term),
            decreases n - j,
        {
            let ghost pre = matched_children@;
            proof {
                assert(cs[j as int] == component.children@[j as int].model());
            }
            let child = &component.children[j];
            if i < child.body_lines.len() {
                proof {
                    assert(child.body_lines.deep_view()[i as int]
                        == child.body_lines@[i as int]@);
                }
                if str_contains(child.body_lines[i].as_str(), search) {
                    matched_children.push(child.clone());
                    proof {
                        crate::parse_component::lemma_component_views_push(
                            pre,
                            matched_children@[matched_children@.len() - 1],
                        );
                        assert(component_views(matched_children@) =~= matched_at_prefix(
                            cs,
                            j as int + 1,
                            i as int,
                            term,
                        ));
                    }
                }
            }
            j = j + 1;
        }
        if matched_children.len() > 0 {
            proof {
                assert(matched_at(cs, i as int, term).len() > 0);
            }
            return matched_children;
        }
        proof {
            assert(component_views(matched_children@).len() == 0);
            assert(matched_at(cs, i as int, term).len() == 0);
        }
        i = i + 1;
    }
    proof {
        assert(spec_find_children_from(cs, term, i as int, max_lines as int)
            =~= Seq::<ComponentView>::empty());
        assert(component_views(matched_children@) =~= spec_find_children(component@, term));
    }
    matched_children
}

/// Appending a context appends its model.
proof fn lemma_context_views_push(s: Seq<Context>, c: Context)
    ensures
        context_views(s.push(c)) == context_views(s).push(c@),
{
    assert(context_views(s.push(c)) =~= context_views(s).push(c@));
}

/// Find a component from a root component.
///
/// Returns the component itself if the search path is empty.
pub fn find_component(component: &Component, search_path: &Vec<String>, config: &Config) -> (r:
    FindComponentResult)
    requires
        component_wf(component@),
    ensures
        r@ == spec_find_component(
            component@,
            search_path.deep_view(),
            config@.context_include_comments,
        ),
{
    proof {
        assert(search_path.deep_view().skip(0) =~= search_path.deep_view());
    }
    find_component_from(component, search_path, 0, config)
}

/// Resolve the search path from its `idx`-th term on.
fn find_component_from(
    component: &Component,
    search_path: &Vec<String>,
    idx: usize,
    config: &Config,
) -> (r: FindComponentResult)
    requires
        component_wf(component@),
        idx <= search_path@.len(),
    ensures
        r@ == spec_find_component(
            component@,
            search_path.deep_view().skip(idx as int),
            config@.context_include_comments,
        ),
    decreases search_path@.len() - idx,
{
    let ghost path = search_path.deep_view().skip(idx as int);
    if idx == search_path.len() {
        let ctxs: Vec<Context> = Vec::new();
        proof {
            assert(path.len() == 0);
            assert(context_views(ctxs@) =~= Seq::<ContextView>::empty());
        }
        return FindComponentResult::Found(component.clone(), ctxs);
    }
    proof {
        assert(path[0] == search_path.deep_view()[idx as int]);
        assert(search_path.deep_view()[idx as int] == search_path@[idx as int]@);
    }
    let matched_children = find_children(component, search_path[idx].as_str());

    if matched_children.len() == 0 {
        proof {
            assert(component_views(matched_children@).len() == 0);
        }
        FindComponentResult::NotFound(search_path[idx].clone())
    } else if matched_children.len() == 1 {
        proof {
            lemma_find_children_wf(component@, path[0]);
            assert(matched_children@[0].model() == component_views(matched_children@)[0]);
            assert(component_wf(matched_children@[0].model()));
            assert(path.drop_first() =~= search_path.deep_view().skip(idx as int + 1));
        }
        let result = find_component_from(&matched_children[0], search_path, idx + 1, config);
        match result {
            FindComponentResult::Found(comp, ctx) => {
                let ghost pre_ctx = ctx@;
                let mut ctx = ctx;
                ctx.push(Context::from_component(component, config.context_include_comments));
                proof {
                    lemma_context_views_push(pre_ctx, ctx@[ctx@.len() - 1]);
                }
                FindComponentResult::Found(comp, ctx)
            },
            FindComponentResult::NotFound(t) => FindComponentResult::NotFound(t),
            FindComponentResult::Multiple(cs, t) => FindComponentResult::Multiple(cs, t),
        }
    } else {
        FindComponentResult::Multiple(matched_children, search_path[idx].clone())
    }
}

} // verus!
