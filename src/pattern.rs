//! Compiled line patterns, backed by the `regex` crate.
//!
//! What a regular expression matches takes pages to state, so the results of
//! the crate's calls are named here and the rest of the library is verified
//! against those names.
use regex::Regex;
use vstd::prelude::*;

verus! {

#[verifier::external_type_specification]
#[verifier::external_body]
pub struct ExRegex(Regex);

/// Whether `Regex::new` accepts `pattern` (with the default size limit).
pub uninterp spec fn compiles(pattern: Seq<char>) -> bool;

/// The number of capture groups of the regex compiled from `pattern`,
/// the implicit whole-match group included.
pub uninterp spec fn group_count(pattern: Seq<char>) -> nat;

/// The text that capture group `group` of the first match of the regex
/// compiled from `pattern` covers in `haystack`; `None` where the regex does
/// not match or that group takes no part in the match.
pub uninterp spec fn captured(pattern: Seq<char>, haystack: Seq<char>, group: nat) -> Option<
    Seq<char>,
>;

/// Whether `piece` stands in `text` as one contiguous run of characters.
pub open spec fn is_piece_of(piece: Seq<char>, text: Seq<char>) -> bool {
    exists|i: int, j: int| 0 <= i <= j <= text.len() && #[trigger] text.subrange(i, j) == piece
}

/// A pattern source that compiles and has a capture group numbered `group`.
pub open spec fn usable(pattern: Seq<char>, group: nat) -> bool {
    compiles(pattern) && group < group_count(pattern)
}

/// The view of an optional owned string.
pub open spec fn opt_view(o: Option<String>) -> Option<Seq<char>> {
    match o {
        Some(s) => Some(s@),
        None => None,
    }
}

/// A regular expression together with the source it was compiled from.
pub struct LinePattern {
    source: String,
    regex: Regex,
}

impl View for LinePattern {
    type V = Seq<char>;

    /// The source text of the pattern.
    closed spec fn view(&self) -> Seq<char> {
        self.source@
    }
}

impl LinePattern {
    /// Relies on `regex::Regex::new`: it fails exactly on the sources that do
    /// not compile, and the regex it returns is the one compiled from `source`.
    #[verifier::external_body]
    pub(crate) fn compile(source: &str) -> (r: Option<LinePattern>)
        ensures
            r is Some <==> compiles(source@),
            r matches Some(p) ==> p@ == source@,
    {
        match Regex::new(source) {
            Ok(regex) => Some(LinePattern { source: source.to_string(), regex }),
            Err(_) => None,
        }
    }

    /// Relies on `regex::Regex::captures_len`: the number of capture groups.
    #[verifier::external_body]
    pub(crate) fn group_len(&self) -> (r: usize)
        ensures
            r == group_count(self@),
    {
        self.regex.captures_len()
    }

    /// Relies on `regex::Regex::captures` and `regex::Captures::get`: the text
    /// of capture group `group` in the first match within `line`, if any;
    /// a match is a slice of the haystack, so that text is a piece of `line`.
    #[verifier::external_body]
    pub(crate) fn capture(&self, line: &str, group: usize) -> (r: Option<String>)
        ensures
            opt_view(r) == captured(self@, line@, group as nat),
            r matches Some(s) ==> is_piece_of(s@, line@),
    {
        self.regex.captures(line).and_then(|caps| caps.get(group)).map(|m| m.as_str().to_string())
    }
}

} // verus!
