//! Formatting options consumed by the writer and the renderer.

use vstd::prelude::*;

verus! {

/// Configuration options for the formatting.
#[derive(Clone, Copy, PartialEq, Eq, Structural, Debug)]
pub struct Config {
    /// The number of spaces to indent by.
    pub indent: usize,
    /// Whether to normalize inter-token whitespace and operator spacing.
    pub spacing: bool,
    /// Whether comma-separated groups that already span several lines may
    /// be exploded onto one indented line per entry.
    pub multiline: bool,
}

impl Config {
    /// The configuration under which formatting leaves syntactically valid
    /// input untouched: no indentation, no spacing changes, no line splits.
    pub open spec fn no_changes_spec() -> Config {
        Config { indent: 0, spacing: false, multiline: false }
    }

    /// Build the no-op configuration.
    pub fn no_changes() -> (c: Config)
        ensures
            c == Config::no_changes_spec(),
    {
        Config { indent: 0, spacing: false, multiline: false }
    }

    /// The default configuration: two spaces of indentation, spacing
    /// normalization and multi-line groups enabled.
    pub open spec fn default_spec() -> Config {
        Config { indent: 2, spacing: true, multiline: true }
    }
}

impl Default for Config {
    fn default() -> (c: Config)
        ensures
            c == Config::default_spec(),
    {
        Config { indent: 2, spacing: true, multiline: true }
    }
}

} // verus!
