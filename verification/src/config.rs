//! The configuration record for one invocation of the tool: which file to
//! search, what to search for, and how. It is built from already-resolved
//! plain values; reading command-line arguments and the environment is the
//! caller's business.

use vstd::prelude::*;

verus! {

/// Holds needed configuration information for the tool.
///
/// - `filename`: the file in which the search will be conducted
/// - `pattern`: the pattern the tool will search
/// - `case_sensitive`: whether the search is case-sensitive
/// - `highlight_match`: whether matched spans are wrapped in highlight markers
pub struct Config {
    filename: String,
    pattern: String,
    case_sensitive: bool,
    highlight_match: bool,
}

impl Config {
    /// The file name this configuration points the search at.
    pub closed spec fn spec_filename(&self) -> Seq<char> {
        self.filename@
    }

    /// The pattern this configuration searches for.
    pub closed spec fn spec_pattern(&self) -> Seq<char> {
        self.pattern@
    }

    /// Whether the search is case-sensitive.
    pub closed spec fn spec_case_sensitive(&self) -> bool {
        self.case_sensitive
    }

    /// Whether matched spans are highlighted.
    pub closed spec fn spec_highlight_match(&self) -> bool {
        self.highlight_match
    }

    /// Creates a new `Config` from the already-resolved values of one
    /// invocation.
    pub fn new(
        pattern: String,
        filename: String,
        case_sensitive: bool,
        highlight_match: bool,
    ) -> (c: Config)
        ensures
            c.spec_pattern() == pattern@,
            c.spec_filename() == filename@,
            c.spec_case_sensitive() == case_sensitive,
            c.spec_highlight_match() == highlight_match,
    {
        Config { filename, pattern, case_sensitive, highlight_match }
    }

    /// Returns the Config's filename value.
    pub fn filename(&self) -> (r: &str)
        ensures
            r@ == self.spec_filename(),
    {
        self.filename.as_str()
    }

    /// Returns the Config's search pattern value.
    pub fn pattern(&self) -> (r: &str)
        ensures
            r@ == self.spec_pattern(),
    {
        self.pattern.as_str()
    }

    /// Returns the Config's case sensitive flag value.
    pub fn case_sensitive(&self) -> (r: &bool)
        ensures
            *r == self.spec_case_sensitive(),
    {
        &self.case_sensitive
    }

    /// Returns the Config's highlight flag value.
    pub fn highlight_match(&self) -> (r: &bool)
        ensures
            *r == self.spec_highlight_match(),
    {
        &self.highlight_match
    }
}

} // verus!
