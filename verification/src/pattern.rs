//! A compiled text pattern, backed by the `regex` crate.
//!
//! A `Pattern` pairs the pattern source with its compiled form. In
//! specifications a `Pattern` is its source text, and what the compiled form
//! matches is named by the uninterpreted function [`regex_match`].

use vstd::prelude::*;

verus! {

#[verifier::external_type_specification]
#[verifier::external_body]
pub struct ExRegex(regex::Regex);

/// Whether the regular expression whose source is `pattern` matches anywhere
/// in `text`, as decided by `regex::Regex::is_match`. The result depends on
/// the pattern source and the text alone.
pub uninterp spec fn regex_match(pattern: Seq<char>, text: Seq<char>) -> bool;

/// Whether `regex::Regex::new` accepts `pattern` as a regular expression
/// source (valid syntax, within the default compiled size limits). The result
/// depends on the source alone.
pub uninterp spec fn regex_compiles(pattern: Seq<char>) -> bool;

/// A compiled pattern together with the source it was compiled from.
///
/// The only constructor is [`Pattern::new`], so the compiled form always
/// belongs to the stored source.
pub struct Pattern {
    source: String,
    compiled: regex::Regex,
}

impl View for Pattern {
    type V = Seq<char>;

    closed spec fn view(&self) -> Seq<char> {
        self.source@
    }
}

impl DeepView for Pattern {
    type V = Seq<char>;

    open spec fn deep_view(&self) -> Seq<char> {
        self@
    }
}

impl Pattern {
    /// Relies on `regex::Regex::new`: compiles `source`, succeeding or
    /// failing as a function of the source alone; `None` exactly when the
    /// source is not a valid regular expression (or exceeds the default
    /// compiled size limit).
    #[verifier::external_body]
    pub fn new(source: &str) -> (r: Option<Pattern>)
        ensures
            r is Some <==> regex_compiles(source@),
            r matches Some(p) ==> p@ == source@,
    {
        match regex::Regex::new(source) {
            Ok(compiled) => Some(Pattern { source: source.to_owned(), compiled }),
            Err(_) => None,
        }
    }

    /// Relies on `regex::Regex::is_match`: returns whether the pattern
    /// matches anywhere in `text`; deterministic in the pattern source and
    /// the text.
    #[verifier::external_body]
    pub fn is_match(&self, text: &str) -> (r: bool)
        ensures
            r == regex_match(self@, text@),
    {
        self.compiled.is_match(text)
    }
}

} // verus!
