use diff_grep::resolve::{Answer, CommitId, Query, Reference, ResolveError, Resolver, Step};

fn id(n: u8) -> CommitId {
    CommitId { bytes: vec![n; 20] }
}

fn found(n: u8) -> Answer {
    Answer::Commit(id(n))
}

fn failed(why: &str) -> Answer {
    Answer::Failed(String::from(why))
}

fn walked(n: u8, parents: usize) -> Answer {
    Answer::Walked { id: id(n), parents }
}

fn branch(name: &str) -> Step {
    Step::Ask(Query::Branch(String::from(name)))
}

/// Puts the answers to the questions in turn and hands back the questions
/// that were asked and the step at which the run ended.
fn run_with(base: Option<&str>, parent: Option<&str>, answers: Vec<Answer>) -> (Vec<Query>, Step) {
    let (mut resolver, mut step) = Resolver::start(base.map(String::from), parent.map(String::from));
    let mut asked = Vec::new();
    let mut answers = answers.into_iter();
    loop {
        match step {
            Step::Ask(query) => {
                asked.push(query);
                match answers.next() {
                    Some(answer) => {
                        let (r, s) = resolver.advance(answer);
                        resolver = r;
                        step = s;
                    },
                    None => panic!("the run asks more questions than there are answers"),
                }
            },
            end => {
                assert!(answers.next().is_none());
                return (asked, end);
            },
        }
    }
}

#[test]
fn both_options_conflict() {
    let (_, step) = Resolver::start(Some(String::from("v1.0")), Some(String::from("develop")));
    assert_eq!(step, Step::Fail(ResolveError::ConflictingOptions));
    let (asked, step) = run_with(Some(""), Some(""), vec![]);
    assert_eq!(asked, vec![]);
    assert_eq!(step, Step::Fail(ResolveError::ConflictingOptions));
}

#[test]
fn a_base_reference_is_taken_as_it_resolves() {
    let (asked, step) = run_with(Some("v1.0"), None, vec![found(7)]);
    assert_eq!(asked, vec![Query::ShortName(String::from("v1.0"))]);
    assert_eq!(step, Step::Done(id(7)));
}

#[test]
fn a_base_reference_that_does_not_resolve() {
    let (_, step) = run_with(Some("v1.0"), None, vec![failed("no such ref")]);
    assert_eq!(
        step,
        Step::Fail(ResolveError::ReferenceNotFound {
            which: Reference::Base,
            cause: String::from("no such ref"),
        })
    );
}

#[test]
fn head_is_resolved_first() {
    let (_, step) = Resolver::start(None, None);
    assert_eq!(step, Step::Ask(Query::Head));
    let (_, step) = Resolver::start(None, Some(String::from("develop")));
    assert_eq!(step, Step::Ask(Query::Head));
}

#[test]
fn head_that_does_not_resolve() {
    let (asked, step) = run_with(None, None, vec![failed("unborn")]);
    assert_eq!(asked, vec![Query::Head]);
    assert_eq!(
        step,
        Step::Fail(ResolveError::ReferenceNotFound {
            which: Reference::Head,
            cause: String::from("unborn"),
        })
    );
}

#[test]
fn off_the_root_branch_the_merge_base_is_the_base() {
    let (asked, step) = run_with(None, None, vec![found(2), found(1), found(9)]);
    assert_eq!(
        asked,
        vec![
            Query::Head,
            Query::Branch(String::from("refs/heads/master")),
            Query::MergeBase(id(2), id(1)),
        ]
    );
    assert_eq!(step, Step::Done(id(9)));
}

#[test]
fn the_second_root_name_stands_in_for_the_first() {
    let (asked, step) = run_with(None, None, vec![found(2), failed("no master"), found(1), found(9)]);
    assert_eq!(
        asked,
        vec![
            Query::Head,
            Query::Branch(String::from("refs/heads/master")),
            Query::Branch(String::from("refs/heads/main")),
            Query::MergeBase(id(2), id(1)),
        ]
    );
    assert_eq!(step, Step::Done(id(9)));
}

#[test]
fn no_root_branch() {
    let (_, step) = run_with(None, None, vec![found(2), failed("no master"), failed("no main")]);
    assert_eq!(step, Step::Fail(ResolveError::RootBranchNotFound));
}

#[test]
fn the_root_branch_is_looked_up_though_a_parent_is_named() {
    let (_, step) =
        run_with(None, Some("develop"), vec![found(2), failed("no master"), failed("no main")]);
    assert_eq!(step, Step::Fail(ResolveError::RootBranchNotFound));
}

#[test]
fn a_named_parent_is_resolved_as_a_branch() {
    let (asked, step) = run_with(None, Some("develop"), vec![found(2), found(1), found(3), found(9)]);
    assert_eq!(
        asked,
        vec![
            Query::Head,
            Query::Branch(String::from("refs/heads/master")),
            Query::Branch(String::from("refs/heads/develop")),
            Query::MergeBase(id(2), id(3)),
        ]
    );
    assert_eq!(step, Step::Done(id(9)));
}

#[test]
fn a_parent_that_does_not_resolve() {
    let (_, step) = run_with(None, Some("develop"), vec![found(2), found(1), failed("gone")]);
    assert_eq!(
        step,
        Step::Fail(ResolveError::ReferenceNotFound {
            which: Reference::Parent,
            cause: String::from("gone"),
        })
    );
}

#[test]
fn no_merge_base() {
    let (_, step) = run_with(None, None, vec![found(2), found(1), failed("unrelated")]);
    assert_eq!(step, Step::Fail(ResolveError::MergeBase { cause: String::from("unrelated") }));
}

#[test]
fn on_the_root_branch_the_first_commit_is_the_base() {
    let (asked, step) =
        run_with(None, None, vec![found(3), found(3), walked(3, 1), walked(2, 2), walked(1, 0)]);
    assert_eq!(
        asked,
        vec![
            Query::Head,
            Query::Branch(String::from("refs/heads/master")),
            Query::Walk,
            Query::Walk,
            Query::Walk,
        ]
    );
    assert_eq!(step, Step::Done(id(1)));
}

#[test]
fn a_history_of_one_commit_is_its_own_base() {
    let (_, step) = run_with(None, None, vec![found(1), failed("no master"), found(1), walked(1, 0)]);
    assert_eq!(step, Step::Done(id(1)));
}

#[test]
fn the_walk_stops_at_the_first_commit_without_parents() {
    let (resolver, step) = Resolver::start(None, None);
    assert_eq!(step, Step::Ask(Query::Head));
    let (resolver, step) = resolver.advance(found(3));
    assert_eq!(step, branch("refs/heads/master"));
    let (resolver, step) = resolver.advance(found(3));
    assert_eq!(step, Step::Ask(Query::Walk));
    let (resolver, step) = resolver.advance(walked(5, 0));
    assert_eq!(step, Step::Done(id(5)));
    let (_, step) = resolver.advance(walked(6, 0));
    assert_eq!(step, Step::Fail(ResolveError::UnexpectedAnswer));
}

#[test]
fn a_parent_that_is_the_root_branch_and_head() {
    let (_, step) =
        run_with(None, Some("master"), vec![found(3), found(3), found(3), walked(3, 1), walked(1, 0)]);
    assert_eq!(step, Step::Done(id(1)));
}

#[test]
fn a_walk_that_fails() {
    let (_, step) = run_with(None, None, vec![found(3), found(3), walked(3, 1), failed("corrupt")]);
    assert_eq!(step, Step::Fail(ResolveError::RootCommitWalk { cause: String::from("corrupt") }));
}

#[test]
fn a_walk_without_a_first_commit() {
    let (_, step) = run_with(None, None, vec![found(3), found(3), walked(3, 1), Answer::WalkEnd]);
    assert_eq!(step, Step::Fail(ResolveError::RootCommitNotFound));
    let (_, step) = run_with(None, None, vec![found(3), found(3), Answer::WalkEnd]);
    assert_eq!(step, Step::Fail(ResolveError::RootCommitNotFound));
}

#[test]
fn head_on_a_parent_that_is_not_the_root_branch() {
    let (asked, step) = run_with(None, Some("develop"), vec![found(2), found(1), found(2)]);
    assert_eq!(asked.len(), 3);
    assert_eq!(step, Step::Fail(ResolveError::SameRef));
}

#[test]
fn head_on_the_root_branch_with_another_parent() {
    let (asked, step) = run_with(None, Some("develop"), vec![found(1), found(1), found(2), found(0)]);
    assert_eq!(asked[3], Query::MergeBase(id(1), id(2)));
    assert_eq!(step, Step::Done(id(0)));
}

#[test]
fn an_answer_that_does_not_fit() {
    let (resolver, _) = Resolver::start(None, None);
    let (_, step) = resolver.advance(walked(1, 0));
    assert_eq!(step, Step::Fail(ResolveError::UnexpectedAnswer));
    let (resolver, _) = Resolver::start(Some(String::from("v1")), None);
    let (_, step) = resolver.advance(Answer::WalkEnd);
    assert_eq!(step, Step::Fail(ResolveError::UnexpectedAnswer));
    let (resolver, _) = Resolver::start(None, None);
    let (resolver, _) = resolver.advance(found(1));
    let (resolver, _) = resolver.advance(found(1));
    let (_, step) = resolver.advance(found(1));
    assert_eq!(step, Step::Fail(ResolveError::UnexpectedAnswer));
}

#[test]
fn commit_ids_compare_by_their_bytes() {
    assert!(id(1).same_as(&id(1)));
    assert!(!id(1).same_as(&id(2)));
    assert!(!id(1).same_as(&CommitId { bytes: vec![1; 19] }));
    assert!(CommitId { bytes: vec![] }.same_as(&CommitId { bytes: vec![] }));
    let mut other = id(1);
    other.bytes[19] = 0;
    assert!(!id(1).same_as(&other));
}

#[test]
fn resolve_errors_say_what_went_wrong() {
    let cause = || String::from("why");
    assert_eq!(
        ResolveError::ConflictingOptions.message(),
        "cannot specify both parent branch and direct diff base options"
    );
    assert_eq!(
        ResolveError::ReferenceNotFound { which: Reference::Base, cause: cause() }.message(),
        "error resolving base commit"
    );
    assert_eq!(
        ResolveError::ReferenceNotFound { which: Reference::Head, cause: cause() }.message(),
        "error resolving head commit"
    );
    assert_eq!(
        ResolveError::ReferenceNotFound { which: Reference::Parent, cause: cause() }.message(),
        "error resolving parent commit"
    );
    assert_eq!(ResolveError::RootBranchNotFound.message(), "root branch not found");
    assert_eq!(ResolveError::SameRef.message(), "HEAD and parent refs are the same");
    assert_eq!(
        ResolveError::MergeBase { cause: cause() }.message(),
        "error getting merge base commit"
    );
    assert_eq!(
        ResolveError::RootCommitWalk { cause: cause() }.message(),
        "error finding root commit"
    );
    assert_eq!(ResolveError::RootCommitNotFound.message(), "root commit not found");
    assert_eq!(
        ResolveError::UnexpectedAnswer.message(),
        "unexpected answer from the repository"
    );
}
