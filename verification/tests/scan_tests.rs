use diff_grep::classify::{EncodingError, FileSide, Origin, RawLine};
use diff_grep::line::Line;
use diff_grep::pattern::Pattern;
use diff_grep::scan::{search, Scan, ScanError};

fn change(origin: Origin, path: &str, lineno: u32, content: &[u8]) -> RawLine {
    let added = origin == Origin::Addition;
    RawLine {
        origin,
        content: content.to_vec(),
        old_lineno: if added { None } else { Some(lineno) },
        new_lineno: if added { Some(lineno) } else { None },
        old_file: FileSide { path: Some(String::from(path)), binary: false },
        new_file: FileSide { path: Some(String::from(path)), binary: false },
    }
}

fn plus(path: &str, lineno: u32, content: &str) -> RawLine {
    change(Origin::Addition, path, lineno, content.as_bytes())
}

fn minus(path: &str, lineno: u32, content: &str) -> RawLine {
    change(Origin::Deletion, path, lineno, content.as_bytes())
}

fn header(path: &str, content: &str) -> RawLine {
    RawLine {
        origin: Origin::Other,
        content: content.as_bytes().to_vec(),
        old_lineno: None,
        new_lineno: None,
        old_file: FileSide { path: Some(String::from(path)), binary: false },
        new_file: FileSide { path: Some(String::from(path)), binary: false },
    }
}

fn needle() -> Pattern {
    Pattern::new("needle").unwrap()
}

fn printed(lines: &[Line]) -> Vec<String> {
    lines.iter().map(|l| l.render(false)).collect()
}

#[test]
fn a_new_matching_line_is_printed() {
    let raws = vec![
        header("file.txt", "diff --git a/file.txt b/file.txt\n"),
        header("file.txt", "@@ -1,0 +2 @@\n"),
        plus("file.txt", 2, "needle here\n"),
    ];
    let lines = search(needle(), &raws).unwrap();
    assert_eq!(printed(&lines), vec![String::from("file.txt:2: needle here")]);
    assert_eq!((lines[0].start, lines[0].end), (0, 6));
    assert_eq!(
        lines[0].render(true),
        "\x1b[32mfile.txt\x1b[m:\x1b[33m2\x1b[m: \x1b[36;1mneedle\x1b[m here"
    );
}

#[test]
fn a_moved_line_is_not_printed() {
    let raws = vec![
        header("a.txt", "diff --git a/a.txt b/a.txt\n"),
        minus("a.txt", 1, "needle old\n"),
        header("b.txt", "diff --git a/b.txt b/b.txt\n"),
        plus("b.txt", 1, "needle old\n"),
    ];
    assert_eq!(search(needle(), &raws), Ok(Vec::new()));
}

#[test]
fn a_reindented_line_is_not_printed() {
    let raws = vec![minus("a.txt", 4, "needle old\n"), plus("a.txt", 9, "        needle old\n")];
    assert_eq!(search(needle(), &raws), Ok(Vec::new()));
    let raws = vec![plus("a.txt", 9, "\tneedle old  \r\n"), minus("a.txt", 4, "  needle old\n")];
    assert_eq!(search(needle(), &raws), Ok(Vec::new()));
}

#[test]
fn a_line_that_does_not_match_is_never_seen() {
    let raws = vec![
        minus("a.txt", 1, "hay\n"),
        plus("a.txt", 1, "hay\n"),
        plus("a.txt", 2, "more hay\n"),
    ];
    assert_eq!(search(needle(), &raws), Ok(Vec::new()));
    let mut scan = Scan::new(needle());
    for raw in &raws {
        assert!(scan.accept(raw));
    }
    assert_eq!(scan.finish(Ok(())), Ok(Vec::new()));
}

#[test]
fn a_removed_line_that_does_not_match_cancels_nothing() {
    // the removed line would read as the added one if the pattern were left out of account
    let raws = vec![minus("a.txt", 1, "hay\n"), plus("a.txt", 1, "needle\n")];
    assert_eq!(printed(&search(needle(), &raws).unwrap()), vec![String::from("a.txt:1: needle")]);
}

#[test]
fn every_matching_line_of_a_whole_history_is_printed() {
    let raws = vec![
        plus("a.txt", 1, "first needle\n"),
        plus("a.txt", 2, "hay\n"),
        plus("a.txt", 3, "second needle\n"),
        plus("b.txt", 1, "needle again\n"),
    ];
    assert_eq!(
        printed(&search(needle(), &raws).unwrap()),
        vec![
            String::from("a.txt:1: first needle"),
            String::from("a.txt:3: second needle"),
            String::from("b.txt:1: needle again"),
        ]
    );
}

#[test]
fn the_later_of_two_added_lines_survives() {
    let raws = vec![
        minus("a.txt", 1, "needle\n"),
        plus("a.txt", 5, "needle\n"),
        plus("a.txt", 8, "needle\n"),
    ];
    assert_eq!(printed(&search(needle(), &raws).unwrap()), vec![String::from("a.txt:8: needle")]);
}

#[test]
fn search_stops_at_a_line_that_is_no_text() {
    let raws = vec![
        plus("a.txt", 1, "needle\n"),
        change(Origin::Addition, "a.txt", 2, &[0xff, 0xfe]),
        plus("a.txt", 3, "needle\n"),
    ];
    assert_eq!(search(needle(), &raws), Err(EncodingError));
}

#[test]
fn the_scan_tells_the_producer_to_stop() {
    let mut scan = Scan::new(needle());
    assert!(scan.accept(&plus("a.txt", 1, "needle\n")));
    assert!(!scan.accept(&change(Origin::Deletion, "a.txt", 2, &[0xc0])));
    assert!(!scan.accept(&plus("a.txt", 3, "needle\n")));
    assert_eq!(scan.finish(Ok(())), Err(ScanError::Encoding));
}

#[test]
fn the_scan_keeps_added_and_removed_lines() {
    let mut scan = Scan::new(needle());
    assert!(scan.accept(&minus("a.txt", 1, "  a needle\n")));
    assert!(scan.accept(&header("a.txt", "@@ needle @@\n")));
    assert!(scan.accept(&plus("a.txt", 1, "the needle\n")));
    let lines = scan.finish(Ok(())).unwrap();
    assert_eq!(lines.len(), 2);
    assert!(!lines[0].added);
    assert_eq!(lines[0].content, "a needle");
    assert_eq!((lines[0].start, lines[0].end), (2, 8));
    assert!(lines[1].added);
    assert_eq!(lines[1].content, "the needle");
    assert_eq!((lines[1].start, lines[1].end), (4, 10));
}

#[test]
fn the_producer_s_failure_is_reported() {
    let mut scan = Scan::new(needle());
    assert!(scan.accept(&plus("a.txt", 1, "needle\n")));
    assert_eq!(
        scan.finish(Err(String::from("disk on fire"))),
        Err(ScanError::Producer(String::from("disk on fire")))
    );
}

#[test]
fn the_scan_s_own_error_comes_first() {
    let mut scan = Scan::new(needle());
    assert!(!scan.accept(&change(Origin::Addition, "a.txt", 2, &[0xff])));
    assert_eq!(scan.finish(Err(String::from("stopped by the consumer"))), Err(ScanError::Encoding));
}

#[test]
fn scan_errors_say_what_went_wrong() {
    assert_eq!(ScanError::Encoding.message(), "error converting line content to utf8");
    assert_eq!(
        ScanError::Producer(String::from("x")).message(),
        "error in iterating diff lines"
    );
}

#[test]
fn an_empty_diff_prints_nothing() {
    assert_eq!(search(needle(), &Vec::new()), Ok(Vec::new()));
    assert_eq!(Scan::new(needle()).finish(Ok(())), Ok(Vec::new()));
}
