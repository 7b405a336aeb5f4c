//! Leaving out the added lines that only moved: each removed line cancels one
//! added line of the same content, the earliest that is left.

use vstd::multiset::Multiset;
use vstd::prelude::*;

use crate::line::{Line, LineView};
use crate::multiset::MultiSet;

verus! {

/// The added lines among `lines`, in their order.
pub open spec fn added_lines(lines: Seq<LineView>) -> Seq<LineView>
    decreases lines.len(),
{
    if lines.len() == 0 {
        Seq::empty()
    } else if lines.last().added {
        added_lines(lines.drop_last()).push(lines.last())
    } else {
        added_lines(lines.drop_last())
    }
}

/// The contents of the removed lines among `lines`, each as often as it was
/// removed.
pub open spec fn removed_contents(lines: Seq<LineView>) -> Multiset<Seq<char>>
    decreases lines.len(),
{
    if lines.len() == 0 {
        Multiset::empty()
    } else if lines.last().added {
        removed_contents(lines.drop_last())
    } else {
        removed_contents(lines.drop_last()).insert(lines.last().content)
    }
}

/// Goes through `added` from the front. A line whose content `removed` still
/// holds takes one occurrence of it away and is left out; any other line
/// stays.
pub open spec fn cancel(added: Seq<LineView>, removed: Multiset<Seq<char>>) -> Seq<LineView>
    decreases added.len(),
{
    if added.len() == 0 {
        Seq::empty()
    } else if removed.count(added.first().content) > 0 {
        cancel(added.drop_first(), removed.remove(added.first().content))
    } else {
        seq![added.first()] + cancel(added.drop_first(), removed)
    }
}

/// The lines to print: the added lines that no removed line cancels.
pub open spec fn surviving(lines: Seq<LineView>) -> Seq<LineView> {
    cancel(added_lines(lines), removed_contents(lines))
}

/// The views of the lines of a vector.
pub open spec fn views(lines: Seq<Line>) -> Seq<LineView> {
    lines.map_values(|l: Line| l@)
}

/// The lines of `lines` with the content `c`, in their order.
pub open spec fn with_content(lines: Seq<LineView>, c: Seq<char>) -> Seq<LineView>
    decreases lines.len(),
{
    if lines.len() == 0 {
        Seq::empty()
    } else if lines.first().content == c {
        seq![lines.first()] + with_content(lines.drop_first(), c)
    } else {
        with_content(lines.drop_first(), c)
    }
}

/// The smaller of two numbers.
pub open spec fn least(a: int, b: int) -> int {
    if a <= b {
        a
    } else {
        b
    }
}

/// Cancellation, content by content. Of the added lines with the content
/// `c`, as many are left out as `removed` holds occurrences of `c`, or all of
/// them where it holds more; those left out are the earliest, so the lines
/// that stay are the latest, in their order.
pub proof fn lemma_cancel_by_content(
    added: Seq<LineView>,
    removed: Multiset<Seq<char>>,
    c: Seq<char>,
)
    ensures
        with_content(cancel(added, removed), c) == with_content(added, c).skip(
            least(removed.count(c) as int, with_content(added, c).len() as int),
        ),
    decreases added.len(),
{
    broadcast use vstd::multiset::group_multiset_axioms;

    let same = with_content(added, c);
    let k = removed.count(c) as int;
    if added.len() == 0 {
        assert(same.skip(0) =~= same);
    } else {
        let head = added.first();
        let rest = added.drop_first();
        let d = head.content;
        if removed.count(d) > 0 {
            lemma_cancel_by_content(rest, removed.remove(d), c);
            if d == c {
                assert(same.drop_first() =~= with_content(rest, c));
                assert(same.skip(least(k, same.len() as int)) =~= with_content(rest, c).skip(
                    least(k - 1, same.len() - 1),
                ));
            }
        } else {
            lemma_cancel_by_content(rest, removed, c);
            let tail = cancel(rest, removed);
            assert((seq![head] + tail).first() == head);
            assert((seq![head] + tail).drop_first() =~= tail);
            if d == c {
                assert(same.skip(0) =~= same);
                assert(with_content(rest, c).skip(0) =~= with_content(rest, c));
            }
        }
    }
}

/// The cancellation law of a whole diff. Where `k` lines with the content `c`
/// were removed and `m` were added, the lines with that content that are
/// printed are the last `m - k` of the added ones, in their order, and none
/// where `k` is `m` or more.
pub proof fn lemma_survivors_by_content(lines: Seq<LineView>, c: Seq<char>)
    ensures
        with_content(surviving(lines), c) == with_content(added_lines(lines), c).skip(
            least(
                removed_contents(lines).count(c) as int,
                with_content(added_lines(lines), c).len() as int,
            ),
        ),
        with_content(surviving(lines), c).len() == if removed_contents(lines).count(c)
            >= with_content(added_lines(lines), c).len() {
            0
        } else {
            with_content(added_lines(lines), c).len() - removed_contents(lines).count(c)
        },
{
    lemma_cancel_by_content(added_lines(lines), removed_contents(lines), c);
}

/// Whether the lines of `part` are lines of `whole`, in the order that they
/// have there.
pub open spec fn in_order_of(part: Seq<LineView>, whole: Seq<LineView>) -> bool
    decreases whole.len(),
{
    if part.len() == 0 {
        true
    } else if whole.len() == 0 {
        false
    } else if part.first() == whole.first() && in_order_of(part.drop_first(), whole.drop_first()) {
        true
    } else {
        in_order_of(part, whole.drop_first())
    }
}

/// The lines that cancellation leaves stand in the order of the added lines.
pub proof fn lemma_cancel_keeps_order(added: Seq<LineView>, removed: Multiset<Seq<char>>)
    ensures
        in_order_of(cancel(added, removed), added),
    decreases added.len(),
{
    if added.len() > 0 {
        let head = added.first();
        let rest = added.drop_first();
        if removed.count(head.content) > 0 {
            lemma_cancel_keeps_order(rest, removed.remove(head.content));
        } else {
            lemma_cancel_keeps_order(rest, removed);
            let tail = cancel(rest, removed);
            assert((seq![head] + tail).first() == head);
            assert((seq![head] + tail).drop_first() =~= tail);
        }
    }
}

/// Every line that cancellation leaves is one of the added lines.
pub proof fn lemma_cancel_keeps_added(added: Seq<LineView>, removed: Multiset<Seq<char>>)
    ensures
        forall|i: int|
            0 <= i < cancel(added, removed).len() ==> added.contains(
                #[trigger] cancel(added, removed)[i],
            ),
    decreases added.len(),
{
    if added.len() > 0 {
        let head = added.first();
        let rest = added.drop_first();
        let d = head.content;
        let cancels = removed.count(d) > 0;
        let left = if cancels {
            removed.remove(d)
        } else {
            removed
        };
        let tail = cancel(rest, left);
        let all = cancel(added, removed);
        lemma_cancel_keeps_added(rest, left);
        assert forall|i: int| 0 <= i < all.len() implies added.contains(#[trigger] all[i]) by {
            if !cancels && i == 0 {
                assert(added[0] == all[i]);
            } else {
                let t = if cancels {
                    i
                } else {
                    i - 1
                };
                assert(all[i] == tail[t]);
                assert(rest.contains(tail[t]));
                let j = choose|j: int| 0 <= j < rest.len() && rest[j] == tail[t];
                assert(added[j + 1] == all[i]);
            }
        }
    }
}

/// Every added line of a diff is a line of the diff, and an added one.
pub proof fn lemma_added_lines_among(lines: Seq<LineView>)
    ensures
        forall|i: int|
            0 <= i < added_lines(lines).len() ==> (#[trigger] added_lines(lines)[i]).added
                && lines.contains(added_lines(lines)[i]),
    decreases lines.len(),
{
    if lines.len() > 0 {
        let front = lines.drop_last();
        let all = added_lines(lines);
        let most = added_lines(front);
        lemma_added_lines_among(front);
        assert forall|i: int| 0 <= i < all.len() implies (#[trigger] all[i]).added
            && lines.contains(all[i]) by {
            if lines.last().added && i == most.len() {
                assert(lines[lines.len() - 1] == all[i]);
            } else {
                assert(all[i] == most[i]);
                assert(front.contains(most[i]));
                let j = choose|j: int| 0 <= j < front.len() && front[j] == most[i];
                assert(lines[j] == all[i]);
            }
        }
    }
}

/// Only added lines of the diff are printed.
pub proof fn lemma_survivors_among(lines: Seq<LineView>)
    ensures
        forall|i: int|
            0 <= i < surviving(lines).len() ==> (#[trigger] surviving(lines)[i]).added
                && lines.contains(surviving(lines)[i]),
{
    lemma_added_lines_among(lines);
    lemma_cancel_keeps_added(added_lines(lines), removed_contents(lines));
    assert forall|i: int| 0 <= i < surviving(lines).len() implies (#[trigger] surviving(
        lines,
    )[i]).added && lines.contains(surviving(lines)[i]) by {
        let l = surviving(lines)[i];
        let j = choose|j: int| 0 <= j < added_lines(lines).len() && added_lines(lines)[j] == l;
        assert(added_lines(lines)[j].added);
    }
}

/// Where nothing was removed, every added line stays.
pub proof fn lemma_cancel_nothing(added: Seq<LineView>)
    ensures
        cancel(added, Multiset::empty()) == added,
    decreases added.len(),
{
    broadcast use vstd::multiset::group_multiset_axioms;

    if added.len() > 0 {
        lemma_cancel_nothing(added.drop_first());
        assert(seq![added.first()] + added.drop_first() =~= added);
    } else {
        assert(added =~= Seq::<LineView>::empty());
    }
}

/// Lines that are all added are their own added lines, and none of them is
/// removed.
proof fn lemma_all_added(lines: Seq<LineView>)
    requires
        forall|i: int| 0 <= i < lines.len() ==> (#[trigger] lines[i]).added,
    ensures
        added_lines(lines) == lines,
        removed_contents(lines) == Multiset::<Seq<char>>::empty(),
    decreases lines.len(),
{
    if lines.len() > 0 {
        let front = lines.drop_last();
        assert forall|i: int| 0 <= i < front.len() implies (#[trigger] front[i]).added by {
            assert(front[i] == lines[i]);
        }
        lemma_all_added(front);
        assert(lines[lines.len() - 1].added);
        assert(front.push(lines.last()) =~= lines);
    } else {
        assert(lines =~= Seq::<LineView>::empty());
    }
}

/// What is printed is settled: to cancel once more among the printed lines
/// changes nothing.
pub proof fn lemma_surviving_is_idempotent(lines: Seq<LineView>)
    ensures
        surviving(surviving(lines)) == surviving(lines),
{
    lemma_survivors_among(lines);
    lemma_all_added(surviving(lines));
    lemma_cancel_nothing(surviving(lines));
}

/// No more contents were removed than the diff has lines.
proof fn lemma_removed_bounded(lines: Seq<LineView>)
    ensures
        removed_contents(lines).len() <= lines.len(),
    decreases lines.len(),
{
    broadcast use vstd::multiset::group_multiset_axioms;

    if lines.len() > 0 {
        lemma_removed_bounded(lines.drop_last());
    }
}

/// The added lines that are left once every removed line has cancelled an
/// added line of its content, where there was one left to cancel.
pub fn dedup(lines: Vec<Line>) -> (out: Vec<Line>)
    ensures
        views(out@) == surviving(views(lines@)),
{
    broadcast use vstd::multiset::group_multiset_axioms;

    let ghost all = views(lines@);
    let mut added: Vec<Line> = Vec::new();
    let mut removed = MultiSet::new();
    let n: usize = lines.len();
    for line in it: lines
        invariant
            it.seq() == lines@,
            n == lines@.len(),
            all == views(lines@),
            removed.wf(),
            views(added@) == added_lines(all.take(it.index() as int)),
            removed@ == removed_contents(all.take(it.index() as int)),
    {
        proof {
            let seen = all.take(it.index() as int);
            assert(all.take(it.index() + 1).drop_last() =~= seen);
            assert(all.take(it.index() + 1).last() == line@);
            lemma_removed_bounded(seen);
            assert(removed@.count(line.content@) <= removed@.len());
        }
        if line.added {
            let ghost before = views(added@);
            added.push(line);
            assert(views(added@) =~= before.push(line@));
        } else {
            removed.insert(line.content);
        }
    }
    assert(all.take(all.len() as int) =~= all);

    let ghost first_added = views(added@);
    let ghost first_removed = removed@;
    let mut out: Vec<Line> = Vec::new();
    assert(first_added.skip(0) =~= first_added);
    assert(views(out@) + cancel(first_added, removed@) =~= cancel(first_added, removed@));
    for line in it: added
        invariant
            it.seq() == added@,
            first_added == views(added@),
            removed.wf(),
            views(out@) + cancel(first_added.skip(it.index() as int), removed@) == cancel(
                first_added,
                first_removed,
            ),
    {
        let ghost rest = first_added.skip(it.index() as int);
        let ghost kept = views(out@);
        let ghost pending = removed@;
        proof {
            assert(rest.first() == line@);
            assert(rest.drop_first() =~= first_added.skip(it.index() + 1));
        }
        if removed.remove(line.content.as_str()) {
            assert(cancel(rest, pending) == cancel(rest.drop_first(), removed@));
        } else {
            assert(removed@ =~= pending);
            assert(cancel(rest, pending) == seq![line@] + cancel(rest.drop_first(), pending));
            out.push(line);
            assert(views(out@) =~= kept.push(line@));
            assert(kept.push(line@) + cancel(rest.drop_first(), pending) =~= kept + (seq![line@]
                + cancel(rest.drop_first(), pending)));
        }
    }
    assert(first_added.skip(first_added.len() as int) =~= Seq::<LineView>::empty());
    assert(views(out@) =~= views(out@) + Seq::<LineView>::empty());
    out
}

} // verus!
