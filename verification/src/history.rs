//! What the choice of a base commit comes to, for a repository that answers
//! truthfully: a model of the repository, the run of the questions against
//! it, and the commit that comes out.

use vstd::prelude::*;

use crate::resolve::{
    branch_reference, compared, first_root_name, next, rooted, second_root_name, start_of,
    AnswerView, QueryView, Reference, ResolveErrorView, ResolverView, StageView, StepView,
};

verus! {

/// One item of the walk back from HEAD through its ancestry.
pub enum WalkItem {
    /// A commit, with the number of its parents.
    Commit { id: Seq<u8>, parents: nat },
    /// The walk failed here; the repository says why.
    Failure(Seq<char>),
}

/// A repository, as far as the choice of a base commit looks at it. Where it
/// cannot answer, it says why.
pub struct History {
    /// The commit that HEAD leads to.
    pub head: Result<Seq<u8>, Seq<char>>,
    /// The commit that a short reference name leads to.
    pub short_names: spec_fn(Seq<char>) -> Result<Seq<u8>, Seq<char>>,
    /// The commit at the tip of the branch with a full reference name.
    pub branches: spec_fn(Seq<char>) -> Result<Seq<u8>, Seq<char>>,
    /// The merge base of two commits.
    pub merge_bases: spec_fn(Seq<u8>, Seq<u8>) -> Result<Seq<u8>, Seq<char>>,
    /// The walk back from HEAD through its ancestry.
    pub walk: Seq<WalkItem>,
}

/// An answer that carries a commit, or the reason why there is none.
pub open spec fn told(found: Result<Seq<u8>, Seq<char>>) -> AnswerView {
    match found {
        Ok(id) => AnswerView::Commit(id),
        Err(cause) => AnswerView::Failed(cause),
    }
}

/// The repository's answer to a question, `walked` items of the walk having
/// been handed out before.
pub open spec fn reply(h: History, query: QueryView, walked: nat) -> AnswerView {
    match query {
        QueryView::ShortName(name) => told((h.short_names)(name)),
        QueryView::Head => told(h.head),
        QueryView::Branch(name) => told((h.branches)(name)),
        QueryView::MergeBase(a, b) => told((h.merge_bases)(a, b)),
        QueryView::Walk => if walked < h.walk.len() {
            match h.walk[walked as int] {
                WalkItem::Commit { id, parents } => AnswerView::Walked { id, parents },
                WalkItem::Failure(cause) => AnswerView::Failed(cause),
            }
        } else {
            AnswerView::WalkEnd
        },
    }
}

/// A bound on the number of questions that are still to come.
pub open spec fn distance(h: History, state: ResolverView, step: StepView, walked: nat) -> nat {
    if !(step is Ask) {
        0
    } else {
        match state.stage {
            StageView::Head => h.walk.len() + 6,
            StageView::Master { .. } => h.walk.len() + 5,
            StageView::Main { .. } => h.walk.len() + 4,
            StageView::Parent { .. } => h.walk.len() + 3,
            StageView::Walk => if walked < h.walk.len() {
                (h.walk.len() - walked + 1) as nat
            } else {
                1
            },
            _ => 1,
        }
    }
}

/// How many items of the walk have been handed out once `query` is answered.
pub open spec fn walked_after(query: QueryView, walked: nat) -> nat {
    if query is Walk {
        walked + 1
    } else {
        walked
    }
}

/// The end of the choice where every question is put to the repository and
/// its answer is taken: the base commit, or the reason why there is none.
pub open spec fn run(h: History, state: ResolverView, step: StepView, walked: nat) -> Result<
    Seq<u8>,
    ResolveErrorView,
>
    decreases distance(h, state, step, walked),
{
    match step {
        StepView::Done(id) => Ok(id),
        StepView::Fail(error) => Err(error),
        StepView::Ask(query) => {
            let after = next(state, reply(h, query, walked));
            run(h, after.0, after.1, walked_after(query, walked))
        },
    }
}

/// The outcome of the choice for a repository and what the user gave.
pub open spec fn resolution(
    h: History,
    base_ref: Option<Seq<char>>,
    parent: Option<Seq<char>>,
) -> Result<Seq<u8>, ResolveErrorView> {
    run(h, start_of(base_ref, parent).0, start_of(base_ref, parent).1, 0)
}

/// The tip of the root branch: of the first of its two names that resolves.
pub open spec fn root_tip(h: History) -> Option<Seq<u8>> {
    match (h.branches)(first_root_name()) {
        Ok(id) => Some(id),
        Err(_) => match (h.branches)(second_root_name()) {
            Ok(id) => Some(id),
            Err(_) => None,
        },
    }
}

/// The parent commit: the tip of the parent branch where one was named, else
/// the tip of the root branch.
pub open spec fn parent_tip(h: History, root: Seq<u8>, parent: Option<Seq<char>>) -> Result<
    Seq<u8>,
    Seq<char>,
> {
    match parent {
        Some(name) => (h.branches)(branch_reference(name)),
        None => Ok(root),
    }
}

/// The first commit without parents that the walk meets from its item
/// `from` on, unless the walk fails or ends before it meets one.
pub open spec fn first_root(walk: Seq<WalkItem>, from: nat) -> Result<Seq<u8>, ResolveErrorView>
    decreases walk.len() - from,
{
    if from >= walk.len() {
        Err(ResolveErrorView::RootCommitNotFound)
    } else {
        match walk[from as int] {
            WalkItem::Failure(cause) => Err(ResolveErrorView::RootCommitWalk { cause }),
            WalkItem::Commit { id, parents } => if parents == 0 {
                Ok(id)
            } else {
                first_root(walk, from + 1)
            },
        }
    }
}

/// The base of the diff between HEAD and a parent commit: their merge base
/// where they differ; the commit without parents where HEAD is the parent
/// and the tip of the root branch; none where HEAD is the parent but not the
/// tip of the root branch.
pub open spec fn base_between(h: History, head: Seq<u8>, root: Seq<u8>, tip: Seq<u8>) -> Result<
    Seq<u8>,
    ResolveErrorView,
> {
    if head != tip {
        match (h.merge_bases)(head, tip) {
            Ok(base) => Ok(base),
            Err(cause) => Err(ResolveErrorView::MergeBase { cause }),
        }
    } else if head == root {
        first_root(h.walk, 0)
    } else {
        Err(ResolveErrorView::SameRef)
    }
}

/// The base commit of a repository for what the user gave.
pub open spec fn base_commit(
    h: History,
    base_ref: Option<Seq<char>>,
    parent: Option<Seq<char>>,
) -> Result<Seq<u8>, ResolveErrorView> {
    if base_ref is Some && parent is Some {
        Err(ResolveErrorView::ConflictingOptions)
    } else if base_ref is Some {
        match (h.short_names)(base_ref.unwrap()) {
            Ok(id) => Ok(id),
            Err(cause) => Err(
                ResolveErrorView::ReferenceNotFound { which: Reference::Base, cause },
            ),
        }
    } else {
        match h.head {
            Err(cause) => Err(
                ResolveErrorView::ReferenceNotFound { which: Reference::Head, cause },
            ),
            Ok(head) => match root_tip(h) {
                None => Err(ResolveErrorView::RootBranchNotFound),
                Some(root) => match parent_tip(h, root, parent) {
                    Err(cause) => Err(
                        ResolveErrorView::ReferenceNotFound { which: Reference::Parent, cause },
                    ),
                    Ok(tip) => base_between(h, head, root, tip),
                },
            },
        }
    }
}

/// A walk that is under way ends at the first commit without parents.
proof fn lemma_walk_runs(h: History, parent: Option<Seq<char>>, walked: nat)
    ensures
        run(
            h,
            ResolverView { stage: StageView::Walk, parent },
            StepView::Ask(QueryView::Walk),
            walked,
        ) == first_root(h.walk, walked),
    decreases h.walk.len() - walked,
{
    reveal_with_fuel(run, 2);
    if walked < h.walk.len() {
        match h.walk[walked as int] {
            WalkItem::Commit { id, parents } => {
                if parents != 0 {
                    lemma_walk_runs(h, parent, walked + 1);
                }
            },
            WalkItem::Failure(_) => {},
        }
    }
}

/// Once HEAD, the root branch and the parent are known, the run ends at the
/// base between them.
proof fn lemma_compared_runs(
    h: History,
    head: Seq<u8>,
    root: Seq<u8>,
    tip: Seq<u8>,
    parent: Option<Seq<char>>,
)
    ensures
        run(
            h,
            compared(head, root, tip, parent).0,
            compared(head, root, tip, parent).1,
            0,
        ) == base_between(h, head, root, tip),
{
    if head != tip {
        reveal_with_fuel(run, 2);
    } else if head == root {
        lemma_walk_runs(h, parent, 0);
    }
}

/// Once HEAD and the root branch are known, the run ends at the base between
/// HEAD and the parent, if the parent resolves.
proof fn lemma_rooted_runs(h: History, head: Seq<u8>, root: Seq<u8>, parent: Option<Seq<char>>)
    ensures
        run(
            h,
            rooted(head, root, parent).0,
            rooted(head, root, parent).1,
            0,
        ) == match parent_tip(h, root, parent) {
            Err(cause) => Err(
                ResolveErrorView::ReferenceNotFound { which: Reference::Parent, cause },
            ),
            Ok(tip) => base_between(h, head, root, tip),
        },
{
    match parent {
        Some(name) => {
            match (h.branches)(branch_reference(name)) {
                Ok(tip) => {
                    lemma_compared_runs(h, head, root, tip, parent);
                },
                Err(_) => {
                    reveal_with_fuel(run, 2);
                },
            }
        },
        None => {
            lemma_compared_runs(h, head, root, root, parent);
        },
    }
}

/// The questions, put one after the other to a repository that answers
/// truthfully, lead to the repository's base commit, or fail as it does.
pub proof fn lemma_resolution_is_base_commit(
    h: History,
    base_ref: Option<Seq<char>>,
    parent: Option<Seq<char>>,
)
    ensures
        resolution(h, base_ref, parent) == base_commit(h, base_ref, parent),
{
    if base_ref is Some {
        reveal_with_fuel(run, 2);
    } else {
        match h.head {
            Err(_) => {
                reveal_with_fuel(run, 2);
            },
            Ok(head) => {
                let at_master = ResolverView { stage: StageView::Master { head }, parent };
                let ask_master = StepView::Ask(QueryView::Branch(first_root_name()));
                assert(resolution(h, base_ref, parent) == run(h, at_master, ask_master, 0));
                match (h.branches)(first_root_name()) {
                    Ok(root) => {
                        lemma_rooted_runs(h, head, root, parent);
                    },
                    Err(_) => {
                        let at_main = ResolverView { stage: StageView::Main { head }, parent };
                        let ask_main = StepView::Ask(QueryView::Branch(second_root_name()));
                        assert(run(h, at_master, ask_master, 0) == run(h, at_main, ask_main, 0));
                        match (h.branches)(second_root_name()) {
                            Ok(root) => {
                                lemma_rooted_runs(h, head, root, parent);
                            },
                            Err(_) => {
                                reveal_with_fuel(run, 2);
                            },
                        }
                    },
                }
            },
        }
    }
}

/// Both ways of choosing the base at once are refused, whatever the
/// repository holds.
pub proof fn lemma_conflicting_options(h: History, base_ref: Seq<char>, parent: Seq<char>)
    ensures
        resolution(h, Some(base_ref), Some(parent)) == Err::<Seq<u8>, _>(
            ResolveErrorView::ConflictingOptions,
        ),
{
}

/// Where HEAD is not the tip of the root branch, and not the tip of the
/// parent branch either, the base is the merge base of HEAD and the parent,
/// however far the two have grown apart, and there is none where the
/// repository finds no merge base.
pub proof fn lemma_off_root_gets_merge_base(
    h: History,
    parent: Option<Seq<char>>,
    head: Seq<u8>,
    root: Seq<u8>,
    tip: Seq<u8>,
)
    requires
        h.head == Ok::<_, Seq<char>>(head),
        root_tip(h) == Some(root),
        parent_tip(h, root, parent) == Ok::<_, Seq<char>>(tip),
        head != root,
        head != tip,
    ensures
        resolution(h, None, parent) == match (h.merge_bases)(head, tip) {
            Ok(base) => Ok(base),
            Err(cause) => Err(ResolveErrorView::MergeBase { cause }),
        },
{
    lemma_resolution_is_base_commit(h, None, parent);
}

/// Where HEAD is the tip of the root branch, and the parent is the root
/// branch too, the base is the first commit without parents in the walk back
/// from HEAD.
pub proof fn lemma_on_root_gets_root_commit(
    h: History,
    parent: Option<Seq<char>>,
    head: Seq<u8>,
)
    requires
        h.head == Ok::<_, Seq<char>>(head),
        root_tip(h) == Some(head),
        parent_tip(h, head, parent) == Ok::<_, Seq<char>>(head),
    ensures
        resolution(h, None, parent) == first_root(h.walk, 0),
{
    lemma_resolution_is_base_commit(h, None, parent);
}

/// A walk that does not fail and that holds one commit without parents finds
/// that commit.
pub proof fn lemma_first_root_is_the_root(walk: Seq<WalkItem>, at: nat, from: nat)
    requires
        from <= at < walk.len(),
        forall|i: int| 0 <= i < walk.len() ==> (#[trigger] walk[i]) is Commit,
        forall|i: int| 0 <= i < walk.len() ==> ((#[trigger] walk[i])->parents == 0 <==> i == at),
    ensures
        first_root(walk, from) == Ok::<_, ResolveErrorView>(walk[at as int]->id),
    decreases at - from,
{
    if from < at {
        assert(walk[from as int] is Commit);
        assert(walk[from as int]->parents != 0);
        lemma_first_root_is_the_root(walk, at, from + 1);
    } else {
        assert(walk[at as int] is Commit);
    }
}

} // verus!
