//! Comment pattern presets for different languages.

use vstd::prelude::*;

use crate::find_comments::CommentMatcherView;
use crate::find_comments::CommentPattern;
use crate::find_comments::matcher_compiles;
use crate::pattern::Pattern;

verus! {

/// Preset values
#[derive(Debug, Clone)]
pub enum Preset {
    /// Rust style
    ///
    /// Outer comments: `///`
    /// Inner comments: `//!`
    Rust,
    /// Rust style for single line and Java/JS/TS style for multiline
    ///
    /// Outer comments: `///` and `/** ... */`
    /// Inner comments: `//!` and `/* ... */`
    RustJava,
    /// Python style
    ///
    /// Outer comments: empty line
    /// Inner comments: `###` and `""" ... """`
    Python,
}

/// The pattern sources of a preset, outer matcher first.
pub open spec fn spec_preset_patterns(p: Preset) -> (CommentMatcherView, CommentMatcherView) {
    match p {
        Preset::Rust => (
            CommentMatcherView { single_line: r"^///"@, multi_start: None, multi_end: r""@ },
            CommentMatcherView { single_line: r"^//!"@, multi_start: None, multi_end: r""@ },
        ),
        Preset::RustJava => (
            CommentMatcherView {
                single_line: r"^///|^/\*\*.*\*/\s*$"@,
                multi_start: Some(r"^/\*\*"@),
                multi_end: r"\*/\s*$"@,
            },
            CommentMatcherView {
                single_line: r"^//!|^/\*[^\*].*\*/\s*$"@,
                multi_start: Some(r"^/\*[^\*]"@),
                multi_end: r"\*/\s*$"@,
            },
        ),
        Preset::Python => (
            CommentMatcherView { single_line: r"^$"@, multi_start: None, multi_end: r""@ },
            CommentMatcherView {
                single_line: "^[\"']{3}.*?[\"']{3}\\s*$"@,
                multi_start: Some("^[\"']{3}"@),
                multi_end: "[\"']{3}\\s*$"@,
            },
        ),
    }
}

/// Every pattern source of the preset compiles as a regular expression.
pub open spec fn preset_compiles(p: Preset) -> bool {
    matcher_compiles(spec_preset_patterns(p).0) && matcher_compiles(spec_preset_patterns(p).1)
}

/// Preset implementation
impl Preset {
    /// Get the patterns in the preset.
    ///
    /// Returns (outer, inner); `None` exactly when one of the preset's fixed
    /// pattern sources fails to compile.
    pub fn get_patterns(&self) -> (r: Option<(CommentPattern, CommentPattern)>)
        ensures
            r is Some <==> preset_compiles(*self),
            r matches Some(pats) ==> pats.0@ == spec_preset_patterns(*self).0 && pats.1@
                == spec_preset_patterns(*self).1,
    {
        match self {
            Preset::Rust => {
                let outer_single = Pattern::new(r"^///");
                let outer_end = Pattern::new(r"");
                let inner_single = Pattern::new(r"^//!");
                let inner_end = Pattern::new(r"");
                match (outer_single, outer_end, inner_single, inner_end) {
                    (Some(os), Some(oe), Some(ns), Some(ne)) => Some(
                        (
                            CommentPattern { single_line: os, multi_start: None, multi_end: oe },
                            CommentPattern { single_line: ns, multi_start: None, multi_end: ne },
                        ),
                    ),
                    _ => None,
                }
            },
            Preset::RustJava => {
                let outer_single = Pattern::new(r"^///|^/\*\*.*\*/\s*$");
                let outer_start = Pattern::new(r"^/\*\*");
                let outer_end = Pattern::new(r"\*/\s*$");
                let inner_single = Pattern::new(r"^//!|^/\*[^\*].*\*/\s*$");
                let inner_start = Pattern::new(r"^/\*[^\*]");
                let inner_end = Pattern::new(r"\*/\s*$");
                match (outer_single, outer_start, outer_end, inner_single, inner_start, inner_end) {
                    (Some(os), Some(oms), Some(oe), Some(ns), Some(nms), Some(ne)) => Some(
                        (
                            CommentPattern {
                                single_line: os,
                                multi_start: Some(oms),
                                multi_end: oe,
                            },
                            CommentPattern {
                                single_line: ns,
                                multi_start: Some(nms),
                                multi_end: ne,
                            },
                        ),
                    ),
                    _ => None,
                }
            },
            Preset::Python => {
                let outer_single = Pattern::new(r"^$");
                let outer_end = Pattern::new(r"");
                let inner_single = Pattern::new("^[\"']{3}.*?[\"']{3}\\s*$");
                let inner_start = Pattern::new("^[\"']{3}");
                let inner_end = Pattern::new("[\"']{3}\\s*$");
                match (outer_single, outer_end, inner_single, inner_start, inner_end) {
                    (Some(os), Some(oe), Some(ns), Some(nms), Some(ne)) => Some(
                        (
                            CommentPattern { single_line: os, multi_start: None, multi_end: oe },
                            CommentPattern {
                                single_line: ns,
                                multi_start: Some(nms),
                                multi_end: ne,
                            },
                        ),
                    ),
                    _ => None,
                }
            },
        }
    }
}

} // verus!
