//! Extracts a navigable outline tree from plain-text source lines using
//! indentation and configurable comment-marker conventions, then locates a
//! node in that tree by a path of substrings and compacts its ancestors for
//! display.

pub mod config;
pub mod context;
pub mod find_comments;
pub mod find_component;
pub mod find_indentation;
pub mod format;
pub mod parse_component;
pub mod pattern;
pub mod presets;
pub mod summarize_lines;
pub mod text;
pub mod unindent_lines;

pub use config::CliArgs;
pub use config::Config;
pub use config::ConfigView;
pub use context::Context;
pub use context::ContextView;
pub use context::spec_context_from;
pub use find_comments::CommentMatcherView;
pub use find_comments::CommentPattern;
pub use find_comments::find_comments;
pub use find_comments::spec_find_comments;
pub use find_component::FindComponentResult;
pub use find_component::FindResultView;
pub use find_component::find_children;
pub use find_component::find_component;
pub use find_component::spec_find_children;
pub use find_component::spec_find_component;
pub use find_indentation::find_indentation;
pub use find_indentation::spec_find_indentation;
pub use format::Format;
pub use parse_component::Component;
pub use parse_component::ComponentView;
pub use parse_component::component_wf;
pub use parse_component::parse_component;
pub use parse_component::spec_parse;
pub use pattern::Pattern;
pub use pattern::regex_match;
pub use presets::Preset;
pub use presets::spec_preset_patterns;
pub use summarize_lines::ellipsis_line;
pub use summarize_lines::spec_summarize;
pub use summarize_lines::summarize_lines;
pub use unindent_lines::spec_unindent;
pub use unindent_lines::unindent_lines;

use vstd::prelude::*;

verus! {

/// A character counts as indentation if it is a space or a tab.
pub open spec fn is_indent_char_spec(c: char) -> bool {
    c == ' ' || c == '\t'
}

/// Check if a char is a valid indent character.
pub fn is_indent_char(c: char) -> (r: bool)
    ensures
        r == is_indent_char_spec(c),
{
    c == ' ' || c == '\t'
}

/// Prefix a string with `indent` spaces.
pub fn indent_string(s: &str, indent: usize) -> (r: String)
    ensures
        r@ == text::indented(s@, indent as nat),
{
    let mut r = String::new();
    let mut i: usize = 0;
    proof {
        assert(r@ =~= text::spaces(0));
    }
    while i < indent
        invariant
            i <= indent,
            r@ == text::spaces(i as nat),
        decreases indent - i,
    {
        let sp = " ";
        proof {
            reveal_strlit(" ");
        }
        r.append(sp);
        proof {
            assert(r@ =~= text::spaces(i as nat + 1));
        }
        i = i + 1;
    }
    r.append(s);
    proof {
        assert(r@ =~= text::indented(s@, indent as nat));
    }
    r
}

} // verus!
