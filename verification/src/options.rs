//! What the user chooses: whether the output is coloured, and how the diff
//! is made.

use vstd::prelude::*;
use vstd::string::*;

use crate::text::same_text;

verus! {

/// When the output is coloured.
#[derive(Debug, Clone, Copy, PartialEq, Eq, Structural)]
pub enum ColorOption {
    /// Always.
    Always,
    /// Where the output goes to a terminal.
    Auto,
    /// Never.
    Never,
}

/// A text that names no colour option.
#[derive(Debug, PartialEq, Eq)]
pub struct ColorError {
    /// The text that was given.
    pub given: String,
}

/// The colour option that a text names, if it names one.
pub open spec fn named_option(s: Seq<char>) -> Option<ColorOption> {
    if s == "always"@ {
        Some(ColorOption::Always)
    } else if s == "auto"@ {
        Some(ColorOption::Auto)
    } else if s == "never"@ {
        Some(ColorOption::Never)
    } else {
        None
    }
}

impl ColorOption {
    /// Reads a colour option: one of `always`, `auto` and `never`.
    pub fn from_str(s: &str) -> (r: Result<ColorOption, ColorError>)
        ensures
            match r {
                Ok(option) => named_option(s@) == Some(option),
                Err(error) => named_option(s@) is None && error.given@ == s@,
            },
    {
        if same_text(s, "always") {
            Ok(ColorOption::Always)
        } else if same_text(s, "auto") {
            Ok(ColorOption::Auto)
        } else if same_text(s, "never") {
            Ok(ColorOption::Never)
        } else {
            Err(ColorError { given: String::from_str(s) })
        }
    }

    /// Whether the output is coloured, given whether it goes to a terminal.
    pub fn enabled(self, terminal: bool) -> (on: bool)
        ensures
            on == match self {
                ColorOption::Always => true,
                ColorOption::Auto => terminal,
                ColorOption::Never => false,
            },
    {
        match self {
            ColorOption::Always => true,
            ColorOption::Auto => terminal,
            ColorOption::Never => false,
        }
    }
}

impl Default for ColorOption {
    fn default() -> (option: ColorOption)
        ensures
            option == ColorOption::Auto,
    {
        ColorOption::Auto
    }
}

/// How the diff between the base commit and the working tree is made.
#[derive(Debug, Clone, Copy, PartialEq, Eq, Structural)]
pub struct DiffSettings {
    /// Files that are not tracked count as added.
    pub include_untracked: bool,
    /// Directories that are not tracked are gone into.
    pub recurse_untracked_dirs: bool,
    /// Files without a change are listed too.
    pub include_unmodified: bool,
    /// A change of a file's mode is no change.
    pub ignore_filemode: bool,
    /// A change of whitespace is no change.
    pub ignore_whitespace: bool,
    /// The number of unchanged lines shown around a change.
    pub context_lines: u32,
}

impl DiffSettings {
    /// The settings of every search: all of the working tree is looked at,
    /// changes of mode and of whitespace are passed over, and no context is
    /// asked for.
    pub fn standard() -> (settings: DiffSettings)
        ensures
            settings == (DiffSettings {
                include_untracked: true,
                recurse_untracked_dirs: true,
                include_unmodified: true,
                ignore_filemode: true,
                ignore_whitespace: true,
                context_lines: 0,
            }),
    {
        DiffSettings {
            include_untracked: true,
            recurse_untracked_dirs: true,
            include_unmodified: true,
            ignore_filemode: true,
            ignore_whitespace: true,
            context_lines: 0,
        }
    }
}

} // verus!
