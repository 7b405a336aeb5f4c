//! A changed line in which the pattern was found, and how it is printed.

use vstd::prelude::*;
use vstd::string::*;
use vstd::utf8::*;

use crate::text::{byte_slice, cut, decimal, lemma_cut_joins, numeral, slices_at};

verus! {

/// A changed line that matches the pattern.
#[derive(Debug, PartialEq, Eq)]
pub struct Line {
    /// Whether the line was added (it is on the new side of the diff) or
    /// removed (it is on the old side).
    pub added: bool,
    /// The line's text without the whitespace at its ends.
    pub content: String,
    /// The byte offset into `content` at which the first match starts.
    pub start: usize,
    /// The byte offset into `content` at which the first match ends.
    pub end: usize,
    /// The line's number in its file.
    pub lineno: u32,
    /// The file's path, as it is shown.
    pub path: String,
}

/// What a `Line` holds, as plain values.
pub struct LineView {
    pub added: bool,
    pub content: Seq<char>,
    pub start: int,
    pub end: int,
    pub lineno: nat,
    pub path: Seq<char>,
}

impl View for Line {
    type V = LineView;

    open spec fn view(&self) -> LineView {
        LineView {
            added: self.added,
            content: self.content@,
            start: self.start as int,
            end: self.end as int,
            lineno: self.lineno as nat,
            path: self.path@,
        }
    }
}

impl LineView {
    /// The match lies within the content and cuts no character in two.
    pub open spec fn well_formed(self) -> bool {
        slices_at(self.content, self.start, self.end)
    }

    /// The content before the match.
    pub open spec fn before(self) -> Seq<char> {
        byte_slice(self.content, 0, self.start)
    }

    /// The matched part of the content.
    pub open spec fn matched(self) -> Seq<char> {
        byte_slice(self.content, self.start, self.end)
    }

    /// The content after the match.
    pub open spec fn after(self) -> Seq<char> {
        byte_slice(self.content, self.end, encode_utf8(self.content).len() as int)
    }
}

/// The escape sequence that starts the colour of a path.
pub open spec fn path_colour() -> Seq<char> {
    "\x1b[32m"@
}

/// The escape sequence that starts the colour of a line number.
pub open spec fn lineno_colour() -> Seq<char> {
    "\x1b[33m"@
}

/// The escape sequence that starts the colour of a match.
pub open spec fn match_colour() -> Seq<char> {
    "\x1b[36;1m"@
}

/// The escape sequence that ends a colour.
pub open spec fn colour_reset() -> Seq<char> {
    "\x1b[m"@
}

/// The printed form of a line: its path, its number and its content, with
/// the path, the number and the match each in a colour of its own where
/// colours are wanted.
pub open spec fn rendered(line: LineView, color: bool) -> Seq<char> {
    if color {
        path_colour() + line.path + colour_reset() + ":"@ + lineno_colour() + decimal(line.lineno)
            + colour_reset() + ": "@ + line.before() + match_colour() + line.matched()
            + colour_reset() + line.after()
    } else {
        line.path + ":"@ + decimal(line.lineno) + ": "@ + line.content
    }
}

/// The printed form of a line without colours, which is also its printed form
/// with colours once the escape sequences are taken out.
pub open spec fn rendered_bare(line: LineView) -> Seq<char> {
    line.path + ":"@ + decimal(line.lineno) + ": "@ + line.before() + line.matched() + line.after()
}

impl Line {
    /// The line as it is printed, with colours or without.
    pub fn render(&self, color: bool) -> (out: String)
        requires
            color ==> self@.well_formed(),
        ensures
            out@ == rendered(self@, color),
    {
        let number = numeral(self.lineno);
        let mut out = String::new();
        if color {
            let (before, matched, after) = cut(self.content.as_str(), self.start, self.end);
            out.append("\x1b[32m");
            out.append(self.path.as_str());
            out.append("\x1b[m");
            out.append(":");
            out.append("\x1b[33m");
            out.append(number.as_str());
            out.append("\x1b[m");
            out.append(": ");
            out.append(before);
            out.append("\x1b[36;1m");
            out.append(matched);
            out.append("\x1b[m");
            out.append(after);
        } else {
            out.append(self.path.as_str());
            out.append(":");
            out.append(number.as_str());
            out.append(": ");
            out.append(self.content.as_str());
        }
        assert(out@ =~= rendered(self@, color));
        out
    }

    /// Whether the match lies within the content and cuts no character in
    /// two, as it does in every line that a search hands out.
    pub fn is_well_formed(&self) -> (ok: bool)
        ensures
            ok == self@.well_formed(),
    {
        broadcast use encode_utf8_valid_utf8;

        let text = self.content.as_str();
        self.start <= self.end && text.is_char_boundary(self.start) && text.is_char_boundary(
            self.end,
        )
    }
}

/// Without colours a line is printed as its three parts in a row: the
/// colours change nothing but the escape sequences between the parts.
pub proof fn lemma_bare_rendering(line: LineView)
    requires
        line.well_formed(),
    ensures
        rendered(line, false) == rendered_bare(line),
{
    lemma_cut_joins(line.content, line.start, line.end);
    assert(rendered(line, false) =~= line.path + ":"@ + decimal(line.lineno) + ": "@ + (
    line.before() + line.matched() + line.after()));
    assert(rendered(line, false) =~= rendered_bare(line));
}

} // verus!
