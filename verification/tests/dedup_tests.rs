use diff_grep::dedup::dedup;
use diff_grep::line::Line;

fn added(content: &str, lineno: u32) -> Line {
    Line {
        added: true,
        content: String::from(content),
        start: 0,
        end: 0,
        lineno,
        path: String::from("new.txt"),
    }
}

fn removed(content: &str, lineno: u32) -> Line {
    Line {
        added: false,
        content: String::from(content),
        start: 0,
        end: 0,
        lineno,
        path: String::from("old.txt"),
    }
}

fn numbers(lines: &[Line]) -> Vec<u32> {
    lines.iter().map(|l| l.lineno).collect()
}

#[test]
fn nothing_in_nothing_out() {
    assert_eq!(dedup(Vec::new()), Vec::new());
}

#[test]
fn added_lines_stay_in_order() {
    let out = dedup(vec![added("c", 1), added("a", 2), added("b", 3)]);
    assert_eq!(out, vec![added("c", 1), added("a", 2), added("b", 3)]);
}

#[test]
fn removed_lines_are_not_printed() {
    assert_eq!(dedup(vec![removed("a", 1), removed("b", 2)]), Vec::new());
}

#[test]
fn a_removed_line_cancels_an_added_line() {
    assert_eq!(dedup(vec![removed("foo", 1), added("foo", 9)]), Vec::new());
}

#[test]
fn a_later_removal_cancels_an_earlier_addition() {
    assert_eq!(dedup(vec![added("foo", 9), removed("foo", 1)]), Vec::new());
}

#[test]
fn the_first_added_line_is_the_one_cancelled() {
    let out = dedup(vec![removed("foo", 1), added("foo", 10), added("foo", 20)]);
    assert_eq!(out, vec![added("foo", 20)]);
}

#[test]
fn three_removals_cancel_three_of_four() {
    let out = dedup(vec![
        added("x", 1),
        removed("x", 1),
        added("x", 2),
        removed("x", 2),
        added("x", 3),
        removed("x", 3),
        added("x", 4),
    ]);
    assert_eq!(out, vec![added("x", 4)]);
}

#[test]
fn more_removals_than_additions_leave_nothing() {
    let out = dedup(vec![removed("x", 1), removed("x", 2), removed("x", 3), added("x", 4)]);
    assert_eq!(out, Vec::new());
}

#[test]
fn survivors_are_max_of_difference_and_zero() {
    for k in 0..5u32 {
        for m in 0..5u32 {
            let mut lines = Vec::new();
            for i in 0..k {
                lines.push(removed("c", i));
            }
            for i in 0..m {
                lines.push(added("c", 100 + i));
            }
            let out = dedup(lines);
            let expected: Vec<u32> = (0..m).filter(|i| *i >= k).map(|i| 100 + i).collect();
            assert_eq!(numbers(&out), expected);
        }
    }
}

#[test]
fn contents_cancel_apart() {
    let out = dedup(vec![
        added("a", 1),
        added("b", 2),
        removed("b", 7),
        added("a", 3),
        added("b", 4),
        removed("c", 8),
        added("c", 5),
        added("d", 6),
    ]);
    assert_eq!(numbers(&out), vec![1, 3, 4, 6]);
}

#[test]
fn content_must_be_the_same_to_the_letter() {
    let out = dedup(vec![removed("foo", 1), added("foo ", 2), added("Foo", 3)]);
    assert_eq!(numbers(&out), vec![2, 3]);
}

#[test]
fn place_and_mark_play_no_part() {
    let mut gone = removed("moved", 3);
    gone.start = 1;
    gone.end = 4;
    gone.path = String::from("a.txt");
    let mut come = added("moved", 77);
    come.path = String::from("b.txt");
    assert_eq!(dedup(vec![gone, come]), Vec::new());
}

#[test]
fn cancelling_again_changes_nothing() {
    let lines = vec![
        added("a", 1),
        removed("a", 2),
        added("a", 3),
        added("b", 4),
        removed("c", 5),
        added("a", 6),
    ];
    let once = dedup(lines);
    assert_eq!(numbers(&once), vec![3, 4, 6]);
    let again = dedup(once);
    assert_eq!(numbers(&again), vec![3, 4, 6]);
}
