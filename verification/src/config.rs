//! Configuration for parsing and searching.
//!
//! Includes both the internal config data structure and the CLI argument
//! bundle it is assembled from.

use vstd::prelude::*;

use crate::find_comments::CommentMatcherView;
use crate::find_comments::CommentPattern;
use crate::format::Format;
use crate::pattern::Pattern;
use crate::pattern::regex_compiles;
use crate::presets::Preset;
use crate::presets::preset_compiles;
use crate::presets::spec_preset_patterns;

verus! {

/// Command line interface arguments, as plain values.
pub struct CliArgs {
    /// The input file to parse
    pub file: String,
    /// The component search path
    ///
    /// Each entry is a case-sensitive substring used to search for components
    /// at that level. The first line of the code after the doc comments is
    /// searched for the substring.
    pub search_path: Vec<String>,
    /// Outer single line comment regex
    pub outer: Option<String>,
    /// Outer multi line comment start regex
    pub outer_start: Option<String>,
    /// Outer multi line comment end regex
    pub outer_end: Option<String>,
    /// Inner single line comment regex
    pub inner: Option<String>,
    /// Inner multi line comment start regex
    pub inner_start: Option<String>,
    /// Inner multi line comment end regex
    pub inner_end: Option<String>,
    /// Patterns for lines that should be ignored
    pub ignore: Vec<String>,
    /// Format for the output
    pub format: Format,
    /// Use a preset configuration
    ///
    /// If both a preset and individual options are set, the individual
    /// options override the corresponding part of the preset. The rest of the
    /// preset is still used.
    pub preset: Option<Preset>,
    /// Print context
    ///
    /// Context is the chain of parent components of the found component.
    pub context: bool,
    /// Print context comments
    ///
    /// Print the comments of the parents along with the context (implies
    /// printing the context).
    pub context_comments: bool,
}

/// Mathematical model of a [`Config`]: each pattern is its source text.
pub ghost struct ConfigView {
    pub outer_comments: CommentMatcherView,
    pub inner_comments: CommentMatcherView,
    pub ignore_lines: Seq<Seq<char>>,
    pub include_context: bool,
    pub context_include_comments: bool,
    pub format: Format,
}

/// Internal config data structure
pub struct Config {
    /// Pattern for matching outer comments
    pub outer_comments: CommentPattern,
    /// Pattern for matching inner comments
    pub inner_comments: CommentPattern,
    /// Patterns of lines to ignore
    pub ignore_lines: Vec<Pattern>,
    /// If context should be included
    pub include_context: bool,
    /// If context should include comments
    pub context_include_comments: bool,
    /// Format of the output
    pub format: Format,
}

impl View for Config {
    type V = ConfigView;

    open spec fn view(&self) -> ConfigView {
        ConfigView {
            outer_comments: self.outer_comments@,
            inner_comments: self.inner_comments@,
            ignore_lines: self.ignore_lines.deep_view(),
            include_context: self.include_context,
            context_include_comments: self.context_include_comments,
            format: self.format,
        }
    }
}

/// All six explicit pattern arguments are given and compile.
pub open spec fn explicit_patterns_ok(args: CliArgs) -> bool {
    &&& args.outer matches Some(s) && regex_compiles(s@)
    &&& args.outer_start matches Some(s) && regex_compiles(s@)
    &&& args.outer_end matches Some(s) && regex_compiles(s@)
    &&& args.inner matches Some(s) && regex_compiles(s@)
    &&& args.inner_start matches Some(s) && regex_compiles(s@)
    &&& args.inner_end matches Some(s) && regex_compiles(s@)
}

/// Every pattern argument that is given compiles.
pub open spec fn override_patterns_ok(args: CliArgs) -> bool {
    &&& (args.outer matches Some(s) ==> regex_compiles(s@))
    &&& (args.outer_start matches Some(s) ==> regex_compiles(s@))
    &&& (args.outer_end matches Some(s) ==> regex_compiles(s@))
    &&& (args.inner matches Some(s) ==> regex_compiles(s@))
    &&& (args.inner_start matches Some(s) ==> regex_compiles(s@))
    &&& (args.inner_end matches Some(s) ==> regex_compiles(s@))
}

/// Every ignore pattern compiles.
pub open spec fn ignore_patterns_ok(ignore: Seq<Seq<char>>) -> bool {
    forall|i: int| 0 <= i < ignore.len() ==> regex_compiles(#[trigger] ignore[i])
}

/// The arguments assemble into a config: without a preset, all six pattern
/// arguments are given and compile; with one, the preset's own sources and
/// every explicitly given override compile; and every ignore pattern
/// compiles.
pub open spec fn spec_config_args_ok(args: CliArgs) -> bool {
    &&& match args.preset {
        None => explicit_patterns_ok(args),
        Some(p) => preset_compiles(p) && override_patterns_ok(args),
    }
    &&& ignore_patterns_ok(args.ignore.deep_view())
}

/// The message reported for a regex source that does not compile.
pub open spec fn invalid_regex_msg(s: Seq<char>) -> Seq<char> {
    "Invalid regex \""@ + s + "\". See --help for more."@
}

/// The message reported when a required comment pattern is not given.
pub open spec fn missing_pattern_msg() -> Seq<char> {
    "Comment pattern missing. Either use a --preset or specify all the --outer* and --inner* arguments. See --help for more."@
}

/// Compile a regex source, reporting a failure as a message.
fn parse_regex(s: &str) -> (r: Result<Pattern, String>)
    ensures
        r is Ok <==> regex_compiles(s@),
        r matches Ok(p) ==> p@ == s@,
        r matches Err(e) ==> e@ == invalid_regex_msg(s@),
{
    match Pattern::new(s) {
        Some(p) => Ok(p),
        None => {
            let mut msg = String::new();
            msg.append("Invalid regex \"");
            msg.append(s);
            msg.append("\". See --help for more.");
            proof {
                assert(msg@ =~= invalid_regex_msg(s@));
            }
            Err(msg)
        },
    }
}

/// Compile an optional regex source; a missing one is an error.
fn parse_comment_pattern(pattern: Option<&String>) -> (r: Result<Pattern, String>)
    ensures
        r is Ok <==> (pattern matches Some(s) && regex_compiles(s@)),
        pattern matches Some(s) ==> (r matches Ok(p) ==> p@ == s@) && (r matches Err(e) ==> e@
            == invalid_regex_msg(s@)),
        pattern is None ==> (r matches Err(e) && e@ == missing_pattern_msg()),
{
    match pattern {
        Some(s) => parse_regex(s.as_str()),
        None => Err(String::from_str(
            "Comment pattern missing. Either use a --preset or specify all the --outer* and --inner* arguments. See --help for more.",
        )),
    }
}

/// Build the outer and inner comment matchers from the six explicit
/// arguments; every one of them is required.
fn parse_comment_pattern_from_args(args: &CliArgs) -> (r: Result<
    (CommentPattern, CommentPattern),
    String,
>)
    ensures
        r is Ok <==> explicit_patterns_ok(*args),
        args.outer is None ==> (r matches Err(e) && e@ == missing_pattern_msg()),
        r matches Ok(pats) ==> {
            &&& args.outer matches Some(s) && pats.0@.single_line == s@
            &&& args.outer_start matches Some(s) && pats.0@.multi_start == Some(s@)
            &&& args.outer_end matches Some(s) && pats.0@.multi_end == s@
            &&& args.inner matches Some(s) && pats.1@.single_line == s@
            &&& args.inner_start matches Some(s) && pats.1@.multi_start == Some(s@)
            &&& args.inner_end matches Some(s) && pats.1@.multi_end == s@
        },
{
    let outer_single = match parse_comment_pattern(args.outer.as_ref()) {
        Ok(p) => p,
        Err(e) => {
            return Err(e);
        },
    };
    let outer_start = match parse_comment_pattern(args.outer_start.as_ref()) {
        Ok(p) => p,
        Err(e) => {
            return Err(e);
        },
    };
    let outer_end = match parse_comment_pattern(args.outer_end.as_ref()) {
        Ok(p) => p,
        Err(e) => {
            return Err(e);
        },
    };
    let inner_single = match parse_comment_pattern(args.inner.as_ref()) {
        Ok(p) => p,
        Err(e) => {
            return Err(e);
        },
    };
    let inner_start = match parse_comment_pattern(args.inner_start.as_ref()) {
        Ok(p) => p,
        Err(e) => {
            return Err(e);
        },
    };
    let inner_end = match parse_comment_pattern(args.inner_end.as_ref()) {
        Ok(p) => p,
        Err(e) => {
            return Err(e);
        },
    };
    Ok(
        (
            CommentPattern {
                single_line: outer_single,
                multi_start: Some(outer_start),
                multi_end: outer_end,
            },
            CommentPattern {
                single_line: inner_single,
                multi_start: Some(inner_start),
                multi_end: inner_end,
            },
        ),
    )
}

impl Config {
    /// Assemble a config from CLI arguments.
    ///
    /// With a preset, the explicitly given pattern arguments override the
    /// corresponding preset patterns; without one, all six pattern arguments
    /// are required.
    pub fn try_from_args(args: CliArgs) -> (r: Result<Config, String>)
        ensures
            r is Ok <==> spec_config_args_ok(args),
            (args.preset is None && args.outer is None) ==> (r matches Err(e) && e@
                == missing_pattern_msg()),
            r matches Ok(c) ==> {
                &&& c.include_context == (args.context || args.context_comments)
                &&& c.context_include_comments == args.context_comments
                &&& c.format == args.format
                &&& c@.ignore_lines == args.ignore.deep_view()
                &&& match args.preset {
                    None => {
                        &&& args.outer matches Some(s) && c@.outer_comments.single_line == s@
                        &&& args.outer_start matches Some(s) && c@.outer_comments.multi_start
                            == Some(s@)
                        &&& args.outer_end matches Some(s) && c@.outer_comments.multi_end == s@
                        &&& args.inner matches Some(s) && c@.inner_comments.single_line == s@
                        &&& args.inner_start matches Some(s) && c@.inner_comments.multi_start
                            == Some(s@)
                        &&& args.inner_end matches Some(s) && c@.inner_comments.multi_end == s@
                    },
                    Some(p) => {
                        &&& c@.outer_comments.single_line == (match args.outer {
                            Some(s) => s@,
                            None => spec_preset_patterns(p).0.single_line,
                        })
                        &&& c@.outer_comments.multi_start == (match args.outer_start {
                            Some(s) => Some(s@),
                            None => spec_preset_patterns(p).0.multi_start,
                        })
                        &&& c@.outer_comments.multi_end == (match args.outer_end {
                            Some(s) => s@,
                            None => spec_preset_patterns(p).0.multi_end,
                        })
                        &&& c@.inner_comments.single_line == (match args.inner {
                            Some(s) => s@,
                            None => spec_preset_patterns(p).1.single_line,
                        })
                        &&& c@.inner_comments.multi_start == (match args.inner_start {
                            Some(s) => Some(s@),
                            None => spec_preset_patterns(p).1.multi_start,
                        })
                        &&& c@.inner_comments.multi_end == (match args.inner_end {
                            Some(s) => s@,
                            None => spec_preset_patterns(p).1.multi_end,
                        })
                    },
                }
            },
    {
        let (outer_comments, inner_comments) = match &args.preset {
            Some(preset) => {
                let pats = match preset.get_patterns() {
                    Some(pats) => pats,
                    None => {
                        return Err(String::from_str("Invalid preset. See --help for more."));
                    },
                };
                let (mut outer, mut inner) = pats;
                if let Some(v) = &args.outer {
                    match parse_regex(v.as_str()) {
                        Ok(p) => {
                            outer.single_line = p;
                        },
                        Err(e) => {
                            return Err(e);
                        },
                    }
                }
                if let Some(v) = &args.outer_start {
                    match parse_regex(v.as_str()) {
                        Ok(p) => {
                            outer.multi_start = Some(p);
                        },
                        Err(e) => {
                            return Err(e);
                        },
                    }
                }
                if let Some(v) = &args.outer_end {
                    match parse_regex(v.as_str()) {
                        Ok(p) => {
                            outer.multi_end = p;
                        },
                        Err(e) => {
                            return Err(e);
                        },
                    }
                }
                if let Some(v) = &args.inner {
                    match parse_regex(v.as_str()) {
                        Ok(p) => {
                            inner.single_line = p;
                        },
                        Err(e) => {
                            return Err(e);
                        },
                    }
                }
                if let Some(v) = &args.inner_start {
                    match parse_regex(v.as_str()) {
                        Ok(p) => {
                            inner.multi_start = Some(p);
                        },
                        Err(e) => {
                            return Err(e);
                        },
                    }
                }
                if let Some(v) = &args.inner_end {
                    match parse_regex(v.as_str()) {
                        Ok(p) => {
                            inner.multi_end = p;
                        },
                        Err(e) => {
                            return Err(e);
                        },
                    }
                }
                (outer, inner)
            },
            None => {
                match parse_comment_pattern_from_args(&args) {
                    Ok(pats) => pats,
                    Err(e) => {
                        return Err(e);
                    },
                }
            },
        };
        let mut ignore_lines: Vec<Pattern> = Vec::new();
        let mut i: usize = 0;
        proof {
            assert(ignore_lines.deep_view() =~= args.ignore.deep_view().subrange(0, 0));
        }
        while i < args.ignore.len()
            invariant
                0 <= i <= args.ignore@.len(),
                ignore_lines.deep_view() == args.ignore.deep_view().subrange(0, i as int),
                forall|j: int|
                    0 <= j < i as int ==> regex_compiles(
                        #[trigger] args.ignore.deep_view()[j],
                    ),
                match args.preset {
                    None => explicit_patterns_ok(args),
                    Some(p) => preset_compiles(p) && override_patterns_ok(args),
                },
            decreases args.ignore@.len() - i,
        {
            let ghost pre = ignore_lines.deep_view();
            let ghost prev = ignore_lines@;
            let p = match parse_regex(args.ignore[i].as_str()) {
                Ok(p) => p,
                Err(e) => {
                    proof {
                        assert(args.ignore.deep_view()[i as int] == args.ignore@[i as int]@);
                        assert(!regex_compiles(args.ignore.deep_view()[i as int]));
                        assert(!ignore_patterns_ok(args.ignore.deep_view()));
                    }
                    return Err(e);
                },
            };
            let ghost pv = p@;
            ignore_lines.push(p);
            proof {
                assert(args.ignore.deep_view()[i as int] == args.ignore@[i as int]@);
                assert(pre.len() == prev.len());
                assert(pre.len() == i as int);
                assert(ignore_lines@.len() == prev.len() + 1);
                assert(ignore_lines.deep_view().len() == i as int + 1);
                assert forall|j: int| 0 <= j < ignore_lines.deep_view().len() implies #[trigger]
                    ignore_lines.deep_view()[j] == args.ignore.deep_view().subrange(
                    0,
                    i as int + 1,
                )[j] by {
                    assert(ignore_lines.deep_view()[j] == ignore_lines@[j].deep_view());
                    if j < prev.len() {
                        assert(ignore_lines@[j] == prev[j]);
                        assert(pre[j] == prev[j].deep_view());
                    } else {
                        assert(ignore_lines@[j].deep_view() == pv);
                    }
                }
                assert(ignore_lines.deep_view() =~= args.ignore.deep_view().subrange(
                    0,
                    i as int + 1,
                ));
            }
            i = i + 1;
        }
        proof {
            assert(args.ignore.deep_view().subrange(0, args.ignore@.len() as int)
                =~= args.ignore.deep_view());
        }
        Ok(
            Config {
                outer_comments,
                inner_comments,
                ignore_lines,
                include_context: args.context || args.context_comments,
                context_include_comments: args.context_comments,
                format: args.format,
            },
        )
    }
}

} // verus!
