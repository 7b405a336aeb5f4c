//! Choosing the commit to diff against. The repository is asked one question
//! at a time; what is asked next, and what is made of the answers, is decided
//! here.

use vstd::prelude::*;
use vstd::string::*;

verus! {

/// The name of a commit: the bytes of its object id.
#[derive(Debug, PartialEq, Eq)]
pub struct CommitId {
    pub bytes: Vec<u8>,
}

impl View for CommitId {
    type V = Seq<u8>;

    open spec fn view(&self) -> Seq<u8> {
        self.bytes@
    }
}

impl CommitId {
    /// Whether the two name the same commit.
    pub fn same_as(&self, other: &CommitId) -> (same: bool)
        ensures
            same == (self@ == other@),
    {
        if self.bytes.len() != other.bytes.len() {
            return false;
        }
        let mut i: usize = 0;
        while i < self.bytes.len()
            invariant
                i <= self.bytes.len(),
                self.bytes.len() == other.bytes.len(),
                forall|j: int| 0 <= j < i ==> self.bytes@[j] == other.bytes@[j],
            decreases self.bytes.len() - i,
        {
            if self.bytes[i] != other.bytes[i] {
                return false;
            }
            i = i + 1;
        }
        assert(self@ =~= other@);
        true
    }
}

/// Which reference could not be resolved.
#[derive(Debug, Clone, Copy, PartialEq, Eq, Structural)]
pub enum Reference {
    /// The reference given as the base of the diff.
    Base,
    /// HEAD.
    Head,
    /// The parent branch.
    Parent,
}

/// Why no base commit was chosen.
#[derive(Debug, PartialEq, Eq)]
pub enum ResolveError {
    /// Both a parent branch and a base reference were given.
    ConflictingOptions,
    /// A reference did not resolve; the repository says why.
    ReferenceNotFound { which: Reference, cause: String },
    /// Neither of the root branch's names resolved.
    RootBranchNotFound,
    /// HEAD is the tip of the parent branch, and that is not the root branch.
    SameRef,
    /// HEAD and the parent have no merge base; the repository says why.
    MergeBase { cause: String },
    /// The walk through HEAD's ancestry failed; the repository says why.
    RootCommitWalk { cause: String },
    /// The walk through HEAD's ancestry met no commit without parents.
    RootCommitNotFound,
    /// An answer came that does not fit the question asked, or none was
    /// asked.
    UnexpectedAnswer,
}

/// What a `ResolveError` holds, as plain values.
pub enum ResolveErrorView {
    ConflictingOptions,
    ReferenceNotFound { which: Reference, cause: Seq<char> },
    RootBranchNotFound,
    SameRef,
    MergeBase { cause: Seq<char> },
    RootCommitWalk { cause: Seq<char> },
    RootCommitNotFound,
    UnexpectedAnswer,
}

impl View for ResolveError {
    type V = ResolveErrorView;

    open spec fn view(&self) -> ResolveErrorView {
        match self {
            ResolveError::ConflictingOptions => ResolveErrorView::ConflictingOptions,
            ResolveError::ReferenceNotFound { which, cause } => {
                ResolveErrorView::ReferenceNotFound { which: *which, cause: cause@ }
            },
            ResolveError::RootBranchNotFound => ResolveErrorView::RootBranchNotFound,
            ResolveError::SameRef => ResolveErrorView::SameRef,
            ResolveError::MergeBase { cause } => ResolveErrorView::MergeBase { cause: cause@ },
            ResolveError::RootCommitWalk { cause } => ResolveErrorView::RootCommitWalk {
                cause: cause@,
            },
            ResolveError::RootCommitNotFound => ResolveErrorView::RootCommitNotFound,
            ResolveError::UnexpectedAnswer => ResolveErrorView::UnexpectedAnswer,
        }
    }
}

/// The words that say what went wrong.
pub open spec fn message_of(error: ResolveErrorView) -> Seq<char> {
    match error {
        ResolveErrorView::ConflictingOptions => {
            "cannot specify both parent branch and direct diff base options"@
        },
        ResolveErrorView::ReferenceNotFound { which: Reference::Base, .. } => {
            "error resolving base commit"@
        },
        ResolveErrorView::ReferenceNotFound { which: Reference::Head, .. } => {
            "error resolving head commit"@
        },
        ResolveErrorView::ReferenceNotFound { which: Reference::Parent, .. } => {
            "error resolving parent commit"@
        },
        ResolveErrorView::RootBranchNotFound => "root branch not found"@,
        ResolveErrorView::SameRef => "HEAD and parent refs are the same"@,
        ResolveErrorView::MergeBase { .. } => "error getting merge base commit"@,
        ResolveErrorView::RootCommitWalk { .. } => "error finding root commit"@,
        ResolveErrorView::RootCommitNotFound => "root commit not found"@,
        ResolveErrorView::UnexpectedAnswer => "unexpected answer from the repository"@,
    }
}

impl ResolveError {
    /// What went wrong, in words.
    pub fn message(&self) -> (text: &'static str)
        ensures
            text@ == message_of(self@),
    {
        match self {
            ResolveError::ConflictingOptions => {
                "cannot specify both parent branch and direct diff base options"
            },
            ResolveError::ReferenceNotFound { which: Reference::Base, .. } => {
                "error resolving base commit"
            },
            ResolveError::ReferenceNotFound { which: Reference::Head, .. } => {
                "error resolving head commit"
            },
            ResolveError::ReferenceNotFound { which: Reference::Parent, .. } => {
                "error resolving parent commit"
            },
            ResolveError::RootBranchNotFound => "root branch not found",
            ResolveError::SameRef => "HEAD and parent refs are the same",
            ResolveError::MergeBase { .. } => "error getting merge base commit",
            ResolveError::RootCommitWalk { .. } => "error finding root commit",
            ResolveError::RootCommitNotFound => "root commit not found",
            ResolveError::UnexpectedAnswer => "unexpected answer from the repository",
        }
    }
}

/// A question to the repository.
#[derive(Debug, PartialEq, Eq)]
pub enum Query {
    /// Which commit does this short reference name lead to?
    ShortName(String),
    /// Which commit does HEAD lead to?
    Head,
    /// Which commit is the tip of the branch with this full reference name?
    Branch(String),
    /// Which commit is the merge base of these two?
    MergeBase(CommitId, CommitId),
    /// Which commit comes next in the walk back from HEAD through its
    /// ancestry, and how many parents has it?
    Walk,
}

/// The repository's answer to a question.
#[derive(Debug, PartialEq, Eq)]
pub enum Answer {
    /// The commit asked for.
    Commit(CommitId),
    /// The next commit of the walk, with the number of its parents.
    Walked { id: CommitId, parents: usize },
    /// The walk has no further commit.
    WalkEnd,
    /// The repository could not answer; it says why.
    Failed(String),
}

/// What is to happen next.
#[derive(Debug, PartialEq, Eq)]
pub enum Step {
    /// The repository is to be asked this.
    Ask(Query),
    /// The base commit is chosen.
    Done(CommitId),
    /// No base commit can be chosen.
    Fail(ResolveError),
}

/// How far the choice has come: which question is open, and what is known.
#[derive(Debug, PartialEq, Eq)]
pub enum Stage {
    /// The base reference is being resolved.
    Base,
    /// HEAD is being resolved.
    Head,
    /// The root branch is being looked up under its first name.
    Master { head: CommitId },
    /// The root branch is being looked up under its second name.
    Main { head: CommitId },
    /// The parent branch is being resolved.
    Parent { head: CommitId, root: CommitId },
    /// The merge base of HEAD and the parent is being looked up.
    Merge,
    /// HEAD's ancestry is being walked in search of the commit without
    /// parents.
    Walk,
    /// Nothing is open: the choice is made, or has failed.
    Over,
}

/// The choice of a base commit, under way.
#[derive(Debug, PartialEq, Eq)]
pub struct Resolver {
    pub stage: Stage,
    /// The name of the parent branch, where one was given.
    pub parent: Option<String>,
}

/// What a `Query` holds, as plain values.
pub enum QueryView {
    ShortName(Seq<char>),
    Head,
    Branch(Seq<char>),
    MergeBase(Seq<u8>, Seq<u8>),
    Walk,
}

/// What an `Answer` holds, as plain values.
pub enum AnswerView {
    Commit(Seq<u8>),
    Walked { id: Seq<u8>, parents: nat },
    WalkEnd,
    Failed(Seq<char>),
}

/// What a `Step` holds, as plain values.
pub enum StepView {
    Ask(QueryView),
    Done(Seq<u8>),
    Fail(ResolveErrorView),
}

/// What a `Stage` holds, as plain values.
pub enum StageView {
    Base,
    Head,
    Master { head: Seq<u8> },
    Main { head: Seq<u8> },
    Parent { head: Seq<u8>, root: Seq<u8> },
    Merge,
    Walk,
    Over,
}

/// What a `Resolver` holds, as plain values.
pub struct ResolverView {
    pub stage: StageView,
    pub parent: Option<Seq<char>>,
}

impl View for Query {
    type V = QueryView;

    open spec fn view(&self) -> QueryView {
        match self {
            Query::ShortName(name) => QueryView::ShortName(name@),
            Query::Head => QueryView::Head,
            Query::Branch(name) => QueryView::Branch(name@),
            Query::MergeBase(a, b) => QueryView::MergeBase(a@, b@),
            Query::Walk => QueryView::Walk,
        }
    }
}

impl View for Answer {
    type V = AnswerView;

    open spec fn view(&self) -> AnswerView {
        match self {
            Answer::Commit(id) => AnswerView::Commit(id@),
            Answer::Walked { id, parents } => AnswerView::Walked {
                id: id@,
                parents: *parents as nat,
            },
            Answer::WalkEnd => AnswerView::WalkEnd,
            Answer::Failed(cause) => AnswerView::Failed(cause@),
        }
    }
}

impl View for Step {
    type V = StepView;

    open spec fn view(&self) -> StepView {
        match self {
            Step::Ask(query) => StepView::Ask(query@),
            Step::Done(id) => StepView::Done(id@),
            Step::Fail(error) => StepView::Fail(error@),
        }
    }
}

impl View for Stage {
    type V = StageView;

    open spec fn view(&self) -> StageView {
        match self {
            Stage::Base => StageView::Base,
            Stage::Head => StageView::Head,
            Stage::Master { head } => StageView::Master { head: head@ },
            Stage::Main { head } => StageView::Main { head: head@ },
            Stage::Parent { head, root } => StageView::Parent { head: head@, root: root@ },
            Stage::Merge => StageView::Merge,
            Stage::Walk => StageView::Walk,
            Stage::Over => StageView::Over,
        }
    }
}

impl View for Resolver {
    type V = ResolverView;

    open spec fn view(&self) -> ResolverView {
        ResolverView {
            stage: self.stage@,
            parent: match self.parent {
                Some(name) => Some(name@),
                None => None,
            },
        }
    }
}

/// The first name under which the root branch is looked up.
pub open spec fn first_root_name() -> Seq<char> {
    "refs/heads/master"@
}

/// The second name under which the root branch is looked up.
pub open spec fn second_root_name() -> Seq<char> {
    "refs/heads/main"@
}

/// The full reference name of the branch called `name`.
pub open spec fn branch_reference(name: Seq<char>) -> Seq<char> {
    "refs/heads/"@ + name
}

/// A state in which nothing is open.
pub open spec fn over(parent: Option<Seq<char>>) -> ResolverView {
    ResolverView { stage: StageView::Over, parent }
}

/// Where the choice starts. Both ways of choosing at once are refused. A base
/// reference is resolved as it stands. Otherwise HEAD is resolved first.
pub open spec fn start_of(base_ref: Option<Seq<char>>, parent: Option<Seq<char>>) -> (
    ResolverView,
    StepView,
) {
    if base_ref is Some && parent is Some {
        (over(parent), StepView::Fail(ResolveErrorView::ConflictingOptions))
    } else if base_ref is Some {
        (
            ResolverView { stage: StageView::Base, parent },
            StepView::Ask(QueryView::ShortName(base_ref.unwrap())),
        )
    } else {
        (ResolverView { stage: StageView::Head, parent }, StepView::Ask(QueryView::Head))
    }
}

/// What follows once HEAD, the root branch and the parent are known. Where
/// HEAD is not the parent, their merge base is asked for. Where HEAD is the
/// parent and the root branch's tip, its ancestry is walked to the commit
/// without parents. Where HEAD is the parent but not the root branch's tip,
/// there is no base.
pub open spec fn compared(
    head: Seq<u8>,
    root: Seq<u8>,
    tip: Seq<u8>,
    parent: Option<Seq<char>>,
) -> (ResolverView, StepView) {
    if head != tip {
        (
            ResolverView { stage: StageView::Merge, parent },
            StepView::Ask(QueryView::MergeBase(head, tip)),
        )
    } else if head == root {
        (ResolverView { stage: StageView::Walk, parent }, StepView::Ask(QueryView::Walk))
    } else {
        (over(parent), StepView::Fail(ResolveErrorView::SameRef))
    }
}

/// What follows once HEAD and the root branch are known: the parent branch
/// is resolved where one was named, else the root branch is the parent.
pub open spec fn rooted(head: Seq<u8>, root: Seq<u8>, parent: Option<Seq<char>>) -> (
    ResolverView,
    StepView,
) {
    match parent {
        Some(name) => (
            ResolverView { stage: StageView::Parent { head, root }, parent },
            StepView::Ask(QueryView::Branch(branch_reference(name))),
        ),
        None => compared(head, root, root, parent),
    }
}

/// The state after an answer, and what is to happen next.
pub open spec fn next(state: ResolverView, answer: AnswerView) -> (ResolverView, StepView) {
    let parent = state.parent;
    let unexpected = (over(parent), StepView::Fail(ResolveErrorView::UnexpectedAnswer));
    match (state.stage, answer) {
        (StageView::Base, AnswerView::Commit(id)) => (over(parent), StepView::Done(id)),
        (StageView::Base, AnswerView::Failed(cause)) => (
            over(parent),
            StepView::Fail(ResolveErrorView::ReferenceNotFound { which: Reference::Base, cause }),
        ),
        (StageView::Head, AnswerView::Commit(id)) => (
            ResolverView { stage: StageView::Master { head: id }, parent },
            StepView::Ask(QueryView::Branch(first_root_name())),
        ),
        (StageView::Head, AnswerView::Failed(cause)) => (
            over(parent),
            StepView::Fail(ResolveErrorView::ReferenceNotFound { which: Reference::Head, cause }),
        ),
        (StageView::Master { head }, AnswerView::Commit(root)) => rooted(head, root, parent),
        (StageView::Master { head }, AnswerView::Failed(_)) => (
            ResolverView { stage: StageView::Main { head }, parent },
            StepView::Ask(QueryView::Branch(second_root_name())),
        ),
        (StageView::Main { head }, AnswerView::Commit(root)) => rooted(head, root, parent),
        (StageView::Main { head }, AnswerView::Failed(_)) => (
            over(parent),
            StepView::Fail(ResolveErrorView::RootBranchNotFound),
        ),
        (StageView::Parent { head, root }, AnswerView::Commit(tip)) => compared(
            head,
            root,
            tip,
            parent,
        ),
        (StageView::Parent { .. }, AnswerView::Failed(cause)) => (
            over(parent),
            StepView::Fail(ResolveErrorView::ReferenceNotFound { which: Reference::Parent, cause }),
        ),
        (StageView::Merge, AnswerView::Commit(id)) => (over(parent), StepView::Done(id)),
        (StageView::Merge, AnswerView::Failed(cause)) => (
            over(parent),
            StepView::Fail(ResolveErrorView::MergeBase { cause }),
        ),
        (StageView::Walk, AnswerView::Walked { id, parents }) => if parents == 0 {
            (over(parent), StepView::Done(id))
        } else {
            (ResolverView { stage: StageView::Walk, parent }, StepView::Ask(QueryView::Walk))
        },
        (StageView::Walk, AnswerView::WalkEnd) => (
            over(parent),
            StepView::Fail(ResolveErrorView::RootCommitNotFound),
        ),
        (StageView::Walk, AnswerView::Failed(cause)) => (
            over(parent),
            StepView::Fail(ResolveErrorView::RootCommitWalk { cause }),
        ),
        _ => unexpected,
    }
}

fn compare(head: CommitId, root: CommitId, tip: CommitId, parent: Option<String>) -> (r: (
    Resolver,
    Step,
))
    ensures
        (r.0@, r.1@) == compared(
            head@,
            root@,
            tip@,
            match parent {
                Some(name) => Some(name@),
                None => None,
            },
        ),
{
    if !head.same_as(&tip) {
        (Resolver { stage: Stage::Merge, parent }, Step::Ask(Query::MergeBase(head, tip)))
    } else if head.same_as(&root) {
        (Resolver { stage: Stage::Walk, parent }, Step::Ask(Query::Walk))
    } else {
        (Resolver { stage: Stage::Over, parent }, Step::Fail(ResolveError::SameRef))
    }
}

fn with_root(head: CommitId, root: CommitId, parent: Option<String>) -> (r: (Resolver, Step))
    ensures
        (r.0@, r.1@) == rooted(
            head@,
            root@,
            match parent {
                Some(name) => Some(name@),
                None => None,
            },
        ),
{
    match &parent {
        Some(name) => {
            let reference = String::from_str("refs/heads/").concat(name.as_str());
            (
                Resolver { stage: Stage::Parent { head, root }, parent },
                Step::Ask(Query::Branch(reference)),
            )
        },
        None => {
            let tip = CommitId { bytes: root.bytes.clone() };
            assert(tip@ =~= root@);
            compare(head, root, tip, parent)
        },
    }
}

impl Resolver {
    /// Begins the choice of a base commit from what the user gave: a base
    /// reference, the name of a parent branch, or neither. To give both is
    /// an error, whatever the repository holds.
    pub fn start(base_ref: Option<String>, parent: Option<String>) -> (r: (Resolver, Step))
        ensures
            (r.0@, r.1@) == start_of(
                match base_ref {
                    Some(name) => Some(name@),
                    None => None,
                },
                match parent {
                    Some(name) => Some(name@),
                    None => None,
                },
            ),
            base_ref is Some && parent is Some ==> r.1@ == StepView::Fail(
                ResolveErrorView::ConflictingOptions,
            ),
    {
        match base_ref {
            Some(name) => {
                if parent.is_some() {
                    (
                        Resolver { stage: Stage::Over, parent },
                        Step::Fail(ResolveError::ConflictingOptions),
                    )
                } else {
                    (Resolver { stage: Stage::Base, parent }, Step::Ask(Query::ShortName(name)))
                }
            },
            None => (Resolver { stage: Stage::Head, parent }, Step::Ask(Query::Head)),
        }
    }

    /// Takes the repository's answer to the question that is open, and says
    /// what is to happen next.
    pub fn advance(self, answer: Answer) -> (r: (Resolver, Step))
        ensures
            (r.0@, r.1@) == next(self@, answer@),
    {
        let Resolver { stage, parent } = self;
        match (stage, answer) {
            (Stage::Base, Answer::Commit(id)) => (
                Resolver { stage: Stage::Over, parent },
                Step::Done(id),
            ),
            (Stage::Base, Answer::Failed(cause)) => (
                Resolver { stage: Stage::Over, parent },
                Step::Fail(ResolveError::ReferenceNotFound { which: Reference::Base, cause }),
            ),
            (Stage::Head, Answer::Commit(id)) => (
                Resolver { stage: Stage::Master { head: id }, parent },
                Step::Ask(Query::Branch(String::from_str("refs/heads/master"))),
            ),
            (Stage::Head, Answer::Failed(cause)) => (
                Resolver { stage: Stage::Over, parent },
                Step::Fail(ResolveError::ReferenceNotFound { which: Reference::Head, cause }),
            ),
            (Stage::Master { head }, Answer::Commit(root)) => with_root(head, root, parent),
            (Stage::Master { head }, Answer::Failed(_)) => (
                Resolver { stage: Stage::Main { head }, parent },
                Step::Ask(Query::Branch(String::from_str("refs/heads/main"))),
            ),
            (Stage::Main { head }, Answer::Commit(root)) => with_root(head, root, parent),
            (Stage::Main { .. }, Answer::Failed(_)) => (
                Resolver { stage: Stage::Over, parent },
                Step::Fail(ResolveError::RootBranchNotFound),
            ),
            (Stage::Parent { head, root }, Answer::Commit(tip)) => compare(head, root, tip, parent),
            (Stage::Parent { .. }, Answer::Failed(cause)) => (
                Resolver { stage: Stage::Over, parent },
                Step::Fail(ResolveError::ReferenceNotFound { which: Reference::Parent, cause }),
            ),
            (Stage::Merge, Answer::Commit(id)) => (
                Resolver { stage: Stage::Over, parent },
                Step::Done(id),
            ),
            (Stage::Merge, Answer::Failed(cause)) => (
                Resolver { stage: Stage::Over, parent },
                Step::Fail(ResolveError::MergeBase { cause }),
            ),
            (Stage::Walk, Answer::Walked { id, parents }) => {
                if parents == 0 {
                    (Resolver { stage: Stage::Over, parent }, Step::Done(id))
                } else {
                    (Resolver { stage: Stage::Walk, parent }, Step::Ask(Query::Walk))
                }
            },
            (Stage::Walk, Answer::WalkEnd) => (
                Resolver { stage: Stage::Over, parent },
                Step::Fail(ResolveError::RootCommitNotFound),
            ),
            (Stage::Walk, Answer::Failed(cause)) => (
                Resolver { stage: Stage::Over, parent },
                Step::Fail(ResolveError::RootCommitWalk { cause }),
            ),
            _ => (
                Resolver { stage: Stage::Over, parent },
                Step::Fail(ResolveError::UnexpectedAnswer),
            ),
        }
    }
}

} // verus!
