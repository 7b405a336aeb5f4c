//! Going through a diff line by line, as its producer hands the lines out,
//! and stopping at the first line that cannot be read.

use vstd::prelude::*;
use vstd::utf8::decode_utf8;

use crate::classify::{
    classification, classify, select, selection, EncodingError, Origin, RawLine, RawLineView,
};
use crate::dedup::{
    added_lines, cancel, dedup, lemma_survivors_among, removed_contents, surviving, views,
};
use crate::line::{Line, LineView};
use crate::pattern::{first_match, Pattern};
use crate::text::trimmed;

verus! {

/// Why going through a diff failed.
#[derive(Debug, PartialEq, Eq)]
pub enum ScanError {
    /// The content of a changed line is no UTF-8.
    Encoding,
    /// The producer of the lines failed; it says why.
    Producer(String),
}

/// What a `ScanError` holds, as plain values.
pub enum ScanErrorView {
    Encoding,
    Producer(Seq<char>),
}

impl View for ScanError {
    type V = ScanErrorView;

    open spec fn view(&self) -> ScanErrorView {
        match self {
            ScanError::Encoding => ScanErrorView::Encoding,
            ScanError::Producer(cause) => ScanErrorView::Producer(cause@),
        }
    }
}

impl ScanError {
    /// What went wrong, in words.
    pub fn message(&self) -> (text: &'static str)
        ensures
            text@ == match self@ {
                ScanErrorView::Encoding => "error converting line content to utf8"@,
                ScanErrorView::Producer(_) => "error in iterating diff lines"@,
            },
    {
        match self {
            ScanError::Encoding => "error converting line content to utf8",
            ScanError::Producer(_) => "error in iterating diff lines",
        }
    }
}

/// The matching lines after one more raw line: the line is added to them
/// where it is a changed line that matches the pattern, and an error comes
/// where it cannot be read.
pub open spec fn step(pattern: Seq<char>, lines: Seq<LineView>, raw: RawLineView) -> Result<
    Seq<LineView>,
    EncodingError,
> {
    match classification(raw) {
        Err(e) => Err(e),
        Ok(None) => Ok(lines),
        Ok(Some(record)) => match selection(pattern, record) {
            Some(line) => Ok(lines.push(line)),
            None => Ok(lines),
        },
    }
}

/// The matching lines of a whole diff, in its order, or the error of the
/// first line that cannot be read.
pub open spec fn scanned(pattern: Seq<char>, raws: Seq<RawLineView>) -> Result<
    Seq<LineView>,
    EncodingError,
>
    decreases raws.len(),
{
    if raws.len() == 0 {
        Ok(Seq::empty())
    } else {
        match scanned(pattern, raws.drop_last()) {
            Err(e) => Err(e),
            Ok(lines) => step(pattern, lines, raws.last()),
        }
    }
}

/// The line is marked at the first match of the pattern in its content, and
/// the mark cuts no character in two.
pub open spec fn marked(pattern: Seq<char>, line: LineView) -> bool {
    &&& line.well_formed()
    &&& first_match(pattern, line.content) == Some((line.start, line.end))
}

/// Every line is marked at the first match of the pattern.
pub open spec fn all_marked(pattern: Seq<char>, lines: Seq<LineView>) -> bool {
    forall|i: int| 0 <= i < lines.len() ==> marked(pattern, #[trigger] lines[i])
}

/// The views of the raw lines of a vector.
pub open spec fn raw_views(raws: Seq<RawLine>) -> Seq<RawLineView> {
    raws.map_values(|r: RawLine| r@)
}

/// Whether every line of a diff that is reached has the line number that it
/// needs: a changed line of text has one, unless an earlier line has already
/// stopped the scan.
pub open spec fn numbered(pattern: Seq<char>, raws: Seq<RawLineView>) -> bool {
    forall|i: int|
        #![trigger raws[i]]
        0 <= i < raws.len() && scanned(pattern, raws.take(i)) is Ok
            ==> !raws[i].lacks_line_number()
}

/// A scan of a diff that is under way: the pattern, the matching lines so
/// far, and whether a line could not be read.
pub struct Scan {
    pattern: Pattern,
    lines: Vec<Line>,
    failed: bool,
}

impl Scan {
    /// The pattern that is searched for.
    pub closed spec fn pattern(&self) -> Seq<char> {
        self.pattern@
    }

    /// The matching lines so far, or the error that stopped the scan.
    pub closed spec fn outcome(&self) -> Result<Seq<LineView>, EncodingError> {
        if self.failed {
            Err(EncodingError)
        } else {
            Ok(views(self.lines@))
        }
    }

    /// Every line that was kept is marked where the pattern first matches it.
    pub closed spec fn wf(&self) -> bool {
        all_marked(self.pattern@, views(self.lines@))
    }

    /// A scan that has seen no line yet.
    pub fn new(pattern: Pattern) -> (scan: Scan)
        ensures
            scan.wf(),
            scan.pattern() == pattern@,
            scan.outcome() == Ok::<Seq<LineView>, EncodingError>(Seq::empty()),
    {
        let scan = Scan { pattern, lines: Vec::new(), failed: false };
        assert(views(scan.lines@) =~= Seq::<LineView>::empty());
        scan
    }

    /// Takes the next raw line and says whether the producer is to go on. A
    /// line that cannot be read stops the scan for good: from then on every
    /// line is passed over.
    pub fn accept(&mut self, raw: &RawLine) -> (go_on: bool)
        requires
            old(self).wf(),
            old(self).outcome() is Ok ==> !raw@.lacks_line_number(),
        ensures
            final(self).wf(),
            final(self).pattern() == old(self).pattern(),
            final(self).outcome() == match old(self).outcome() {
                Ok(lines) => step(old(self).pattern(), lines, raw@),
                Err(e) => Err(e),
            },
            go_on == final(self).outcome() is Ok,
    {
        if self.failed {
            return false;
        }
        match classify(raw) {
            Err(_) => {
                self.failed = true;
                false
            },
            Ok(None) => true,
            Ok(Some(record)) => {
                match select(&self.pattern, record) {
                    Some(line) => {
                        let ghost before = views(self.lines@);
                        self.lines.push(line);
                        assert(views(self.lines@) =~= before.push(line@));
                    },
                    None => {},
                }
                true
            },
        }
    }

    /// Ends the scan with what the producer said of its own run. The error of
    /// a line that could not be read comes first, whatever the producer says;
    /// then the producer's own failure; else the matching lines, in the order
    /// of the diff.
    pub fn finish(self, producer: Result<(), String>) -> (r: Result<Vec<Line>, ScanError>)
        requires
            self.wf(),
        ensures
            match (self.outcome(), producer) {
                (Err(_), _) => r matches Err(e) && e@ == ScanErrorView::Encoding,
                (Ok(_), Err(cause)) => r matches Err(e) && e@ == ScanErrorView::Producer(cause@),
                (Ok(lines), Ok(_)) => r matches Ok(found) && views(found@) == lines && all_marked(
                    self.pattern(),
                    lines,
                ),
            },
    {
        if self.failed {
            return Err(ScanError::Encoding);
        }
        match producer {
            Err(cause) => Err(ScanError::Producer(cause)),
            Ok(_) => Ok(self.lines),
        }
    }
}

/// What a search of a diff prints: the added lines that match the pattern
/// and that no removed matching line cancels, or the error of the first line
/// that cannot be read.
pub open spec fn found(pattern: Seq<char>, raws: Seq<RawLineView>) -> Result<
    Seq<LineView>,
    EncodingError,
> {
    match scanned(pattern, raws) {
        Ok(lines) => Ok(surviving(lines)),
        Err(e) => Err(e),
    }
}

/// Searches a whole diff that is at hand: the lines to print, in the order
/// of the diff.
pub fn search(pattern: Pattern, raws: &Vec<RawLine>) -> (r: Result<Vec<Line>, EncodingError>)
    requires
        numbered(pattern@, raw_views(raws@)),
    ensures
        match r {
            Ok(lines) => found(pattern@, raw_views(raws@)) == Ok::<_, EncodingError>(
                views(lines@),
            ) && all_marked(pattern@, views(lines@)),
            Err(e) => found(pattern@, raw_views(raws@)) == Err::<Seq<LineView>, _>(e),
        },
{
    let ghost all = raw_views(raws@);
    let ghost source = pattern@;
    let mut scan = Scan::new(pattern);
    let mut i: usize = 0;
    assert(all.take(0) =~= Seq::<RawLineView>::empty());
    while i < raws.len()
        invariant
            i <= raws.len(),
            all == raw_views(raws@),
            source == pattern@,
            numbered(source, all),
            scan.wf(),
            scan.pattern() == source,
            scan.outcome() is Ok,
            scan.outcome() == scanned(source, all.take(i as int)),
        decreases raws.len() - i,
    {
        let raw = &raws[i];
        proof {
            lemma_scanned_next(source, all, i as int);
            assert(all[i as int] == raw@);
        }
        let go_on = scan.accept(raw);
        i = i + 1;
        if !go_on {
            proof {
                lemma_failure_stays(source, all, i as int);
            }
            return Err(EncodingError);
        }
    }
    assert(all.take(i as int) =~= all);
    match scan.finish(Ok(())) {
        Ok(lines) => {
            let ghost kept = views(lines@);
            let out = dedup(lines);
            proof {
                lemma_survivors_among(kept);
                assert forall|j: int| 0 <= j < views(out@).len() implies marked(
                    source,
                    #[trigger] views(out@)[j],
                ) by {
                    let l = views(out@)[j];
                    let k = choose|k: int| 0 <= k < kept.len() && kept[k] == l;
                    assert(marked(source, kept[k]));
                }
            }
            Ok(out)
        },
        Err(_) => Err(EncodingError),
    }
}

/// A scan of one line more is a step from the scan of the lines before it.
proof fn lemma_scanned_next(pattern: Seq<char>, raws: Seq<RawLineView>, n: int)
    requires
        0 <= n < raws.len(),
    ensures
        scanned(pattern, raws.take(n + 1)) == match scanned(pattern, raws.take(n)) {
            Err(e) => Err(e),
            Ok(lines) => step(pattern, lines, raws[n]),
        },
{
    assert(raws.take(n + 1).drop_last() =~= raws.take(n));
    assert(raws.take(n + 1).last() == raws[n]);
}

/// Once a line could not be read, the scan has failed whatever follows.
pub proof fn lemma_failure_stays(pattern: Seq<char>, raws: Seq<RawLineView>, n: int)
    requires
        0 <= n <= raws.len(),
        scanned(pattern, raws.take(n)) is Err,
    ensures
        scanned(pattern, raws) == Err::<Seq<LineView>, _>(EncodingError),
        found(pattern, raws) == Err::<Seq<LineView>, _>(EncodingError),
    decreases raws.len() - n,
{
    if n < raws.len() {
        lemma_scanned_next(pattern, raws, n);
        lemma_failure_stays(pattern, raws, n + 1);
    } else {
        assert(raws.take(n) =~= raws);
    }
}

/// Nothing passes the pattern but what matches it: every line that a scan
/// keeps, added or removed, is marked where the pattern first matches its
/// content.
pub proof fn lemma_only_matches_pass(pattern: Seq<char>, raws: Seq<RawLineView>)
    ensures
        scanned(pattern, raws) matches Ok(lines) ==> forall|i: int|
            0 <= i < lines.len() ==> first_match(pattern, (#[trigger] lines[i]).content) == Some(
                (lines[i].start, lines[i].end),
            ),
    decreases raws.len(),
{
    if raws.len() > 0 {
        lemma_only_matches_pass(pattern, raws.drop_last());
    }
}

/// A line that was moved is not printed. Where a removed line and an added
/// line have the same text once the whitespace at their ends is taken away,
/// however they were indented, the one cancels the other, whichever of them
/// the diff shows first.
pub proof fn lemma_moved_line_cancels(pattern: Seq<char>, gone: RawLineView, come: RawLineView)
    requires
        gone.origin == Origin::Deletion,
        come.origin == Origin::Addition,
        classification(gone) matches Ok(Some(_)),
        classification(come) matches Ok(Some(_)),
        trimmed(decode_utf8(gone.content)) == trimmed(decode_utf8(come.content)),
    ensures
        found(pattern, seq![gone, come]) == Ok::<_, EncodingError>(Seq::<LineView>::empty()),
        found(pattern, seq![come, gone]) == Ok::<_, EncodingError>(Seq::<LineView>::empty()),
{
    broadcast use vstd::multiset::group_multiset_axioms;

    reveal_with_fuel(scanned, 3);
    reveal_with_fuel(added_lines, 3);
    reveal_with_fuel(removed_contents, 3);
    reveal_with_fuel(cancel, 3);
    let first = seq![gone, come];
    let second = seq![come, gone];
    assert(first.drop_last() =~= seq![gone]);
    assert(first.drop_last().drop_last() =~= Seq::<RawLineView>::empty());
    assert(second.drop_last() =~= seq![come]);
    assert(second.drop_last().drop_last() =~= Seq::<RawLineView>::empty());
    let a = scanned(pattern, first)->Ok_0;
    let b = scanned(pattern, second)->Ok_0;
    if a.len() > 0 {
        assert(a.len() == 2);
        assert(a.drop_last() =~= seq![a[0]]);
        assert(a.drop_last().drop_last() =~= Seq::<LineView>::empty());
        assert(b.drop_last() =~= seq![b[0]]);
        assert(b.drop_last().drop_last() =~= Seq::<LineView>::empty());
        assert(added_lines(a) =~= seq![a[1]]);
        assert(added_lines(b) =~= seq![b[0]]);
        assert(seq![a[1]].drop_first() =~= Seq::<LineView>::empty());
        assert(seq![b[0]].drop_first() =~= Seq::<LineView>::empty());
    }
}

} // verus!
