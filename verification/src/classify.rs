//! From the raw lines of a diff to the changed lines that match the pattern.

use vstd::prelude::*;
use vstd::string::*;
use vstd::utf8::*;

use crate::line::{Line, LineView};
use crate::pattern::{find, first_match, Pattern};
use crate::text::{decode, trim, trimmed};

verus! {

/// What kind of line of a diff a raw line is.
#[derive(Debug, Clone, Copy, PartialEq, Eq, Structural)]
pub enum Origin {
    /// A line that only the new side has.
    Addition,
    /// A line that only the old side has.
    Deletion,
    /// A line that both sides have.
    Context,
    /// Anything else: a header, a hunk marker, a note on a missing newline.
    Other,
}

/// One side of a changed file.
#[derive(Debug, PartialEq, Eq)]
pub struct FileSide {
    /// The file's path as it is shown, where the side has one.
    pub path: Option<String>,
    /// Whether the file is taken for binary.
    pub binary: bool,
}

/// A line of a diff as the diffing engine hands it out.
#[derive(Debug, PartialEq, Eq)]
pub struct RawLine {
    /// What kind of line it is.
    pub origin: Origin,
    /// The line's bytes, its line end included.
    pub content: Vec<u8>,
    /// The line's number on the old side.
    pub old_lineno: Option<u32>,
    /// The line's number on the new side.
    pub new_lineno: Option<u32>,
    /// The file as it was.
    pub old_file: FileSide,
    /// The file as it is.
    pub new_file: FileSide,
}

/// A changed line of text, trimmed and placed.
#[derive(Debug, PartialEq, Eq)]
pub struct DiffLineRecord {
    /// Whether the line was added, or else removed.
    pub added: bool,
    /// The line's text without the whitespace at its ends.
    pub content: String,
    /// The line's number in its file.
    pub line_number: u32,
    /// The file's path, as it is shown.
    pub path: String,
}

/// The content of a changed line is no UTF-8.
#[derive(Debug, Clone, Copy, PartialEq, Eq, Structural)]
pub struct EncodingError;

/// What a `FileSide` holds, as plain values.
pub struct FileSideView {
    pub path: Option<Seq<char>>,
    pub binary: bool,
}

/// What a `RawLine` holds, as plain values.
pub struct RawLineView {
    pub origin: Origin,
    pub content: Seq<u8>,
    pub old_lineno: Option<u32>,
    pub new_lineno: Option<u32>,
    pub old_file: FileSideView,
    pub new_file: FileSideView,
}

/// What a `DiffLineRecord` holds, as plain values.
pub struct DiffLineRecordView {
    pub added: bool,
    pub content: Seq<char>,
    pub line_number: nat,
    pub path: Seq<char>,
}

impl View for FileSide {
    type V = FileSideView;

    open spec fn view(&self) -> FileSideView {
        FileSideView {
            path: match self.path {
                Some(p) => Some(p@),
                None => None,
            },
            binary: self.binary,
        }
    }
}

impl View for RawLine {
    type V = RawLineView;

    open spec fn view(&self) -> RawLineView {
        RawLineView {
            origin: self.origin,
            content: self.content@,
            old_lineno: self.old_lineno,
            new_lineno: self.new_lineno,
            old_file: self.old_file@,
            new_file: self.new_file@,
        }
    }
}

impl View for DiffLineRecord {
    type V = DiffLineRecordView;

    open spec fn view(&self) -> DiffLineRecordView {
        DiffLineRecordView {
            added: self.added,
            content: self.content@,
            line_number: self.line_number as nat,
            path: self.path@,
        }
    }
}

impl RawLineView {
    /// The line is an addition or a deletion.
    pub open spec fn changed(self) -> bool {
        self.origin == Origin::Addition || self.origin == Origin::Deletion
    }

    /// The side of the file that the line belongs to: the new one for an
    /// addition, the old one otherwise.
    pub open spec fn side(self) -> FileSideView {
        if self.origin == Origin::Addition {
            self.new_file
        } else {
            self.old_file
        }
    }

    /// The line's number: that of the new side where there is one, else that
    /// of the old side.
    pub open spec fn line_number(self) -> Option<u32> {
        if self.new_lineno is Some {
            self.new_lineno
        } else {
            self.old_lineno
        }
    }

    /// The line is a changed line of text without a number on either side.
    /// The diffing engine gives every changed line one, so such a line shows
    /// a defect and is not classified.
    pub open spec fn lacks_line_number(self) -> bool {
        &&& self.changed()
        &&& !self.side().binary
        &&& valid_utf8(self.content)
        &&& self.line_number() is None
    }
}

/// What becomes of a raw line: nothing where it is no changed line, where
/// its file is binary or where its side has no path; an error where its
/// content is no UTF-8; else the record of the change.
pub open spec fn classification(raw: RawLineView) -> Result<
    Option<DiffLineRecordView>,
    EncodingError,
>
    recommends
        !raw.lacks_line_number(),
{
    if !raw.changed() || raw.side().binary {
        Ok(None)
    } else if !valid_utf8(raw.content) {
        Err(EncodingError)
    } else if raw.side().path is None {
        Ok(None)
    } else {
        Ok(
            Some(
                DiffLineRecordView {
                    added: raw.origin == Origin::Addition,
                    content: trimmed(decode_utf8(raw.content)),
                    line_number: raw.line_number().unwrap() as nat,
                    path: raw.side().path.unwrap(),
                },
            ),
        )
    }
}

/// What the pattern makes of a record: the matching line with the place of
/// the first match, or nothing where the content does not match.
pub open spec fn selection(pattern: Seq<char>, record: DiffLineRecordView) -> Option<LineView> {
    match first_match(pattern, record.content) {
        Some(m) => Some(
            LineView {
                added: record.added,
                content: record.content,
                start: m.0,
                end: m.1,
                lineno: record.line_number,
                path: record.path,
            },
        ),
        None => None,
    }
}

/// Whether the line is a changed line of text that has no line number.
pub fn lacks_line_number(raw: &RawLine) -> (lacking: bool)
    ensures
        lacking == raw@.lacks_line_number(),
{
    let added = match raw.origin {
        Origin::Addition => true,
        Origin::Deletion => false,
        _ => {
            return false;
        },
    };
    let file = if added {
        &raw.new_file
    } else {
        &raw.old_file
    };
    if file.binary {
        return false;
    }
    if decode(raw.content.as_slice()).is_none() {
        return false;
    }
    raw.new_lineno.is_none() && raw.old_lineno.is_none()
}

/// Classifies a raw line of a diff: the record of a changed line of text,
/// nothing for a line that is passed over, or the error of a line that
/// cannot be read.
pub fn classify(raw: &RawLine) -> (r: Result<Option<DiffLineRecord>, EncodingError>)
    requires
        !raw@.lacks_line_number(),
    ensures
        match r {
            Ok(Some(record)) => classification(raw@) == Ok::<_, EncodingError>(Some(record@)),
            Ok(None) => classification(raw@) == Ok::<Option<DiffLineRecordView>, EncodingError>(
                None,
            ),
            Err(e) => classification(raw@) == Err::<Option<DiffLineRecordView>, _>(e),
        },
{
    broadcast use encode_utf8_decode_utf8;

    let added = match raw.origin {
        Origin::Addition => true,
        Origin::Deletion => false,
        _ => {
            return Ok(None);
        },
    };
    let file = if added {
        &raw.new_file
    } else {
        &raw.old_file
    };
    if file.binary {
        return Ok(None);
    }
    let text = match decode(raw.content.as_slice()) {
        Some(text) => text,
        None => {
            return Err(EncodingError);
        },
    };
    let content = trim(text);
    let line_number: u32 = match raw.new_lineno {
        Some(n) => n,
        None => match raw.old_lineno {
            Some(n) => n,
            None => vstd::pervasive::unreached(),
        },
    };
    let path = match &file.path {
        Some(path) => path,
        None => {
            return Ok(None);
        },
    };
    Ok(
        Some(
            DiffLineRecord {
                added,
                content: String::from_str(content),
                line_number,
                path: path.clone(),
            },
        ),
    )
}

/// Applies the pattern to a record: the line with the first match marked in
/// it, or nothing where the content does not match.
pub fn select(pattern: &Pattern, record: DiffLineRecord) -> (r: Option<Line>)
    ensures
        match r {
            Some(line) => selection(pattern@, record@) == Some(line@) && line@.well_formed(),
            None => selection(pattern@, record@) is None,
        },
{
    match find(pattern, record.content.as_str()) {
        Some((start, end)) => Some(
            Line {
                added: record.added,
                content: record.content,
                start,
                end,
                lineno: record.line_number,
                path: record.path,
            },
        ),
        None => None,
    }
}

} // verus!
