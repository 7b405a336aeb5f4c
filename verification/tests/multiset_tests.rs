use diff_grep::multiset::MultiSet;

#[test]
fn remove_from_empty_finds_nothing() {
    let mut set = MultiSet::new();
    assert!(!set.remove("foo"));
}

#[test]
fn insert_then_remove_once() {
    let mut set = MultiSet::new();
    set.insert(String::from("foo"));
    assert!(set.remove("foo"));
    assert!(!set.remove("foo"));
}

#[test]
fn counts_every_occurrence() {
    let mut set = MultiSet::new();
    set.insert(String::from("foo"));
    set.insert(String::from("foo"));
    set.insert(String::from("foo"));
    assert!(set.remove("foo"));
    assert!(set.remove("foo"));
    assert!(set.remove("foo"));
    assert!(!set.remove("foo"));
}

#[test]
fn keeps_contents_apart() {
    let mut set = MultiSet::new();
    set.insert(String::from("foo"));
    set.insert(String::from("bar"));
    assert!(!set.remove("baz"));
    assert!(set.remove("bar"));
    assert!(!set.remove("bar"));
    assert!(set.remove("foo"));
    assert!(!set.remove("foo"));
}

#[test]
fn entry_can_come_back_after_it_left() {
    let mut set = MultiSet::new();
    set.insert(String::from("foo"));
    assert!(set.remove("foo"));
    assert!(!set.remove("foo"));
    set.insert(String::from("foo"));
    assert!(set.remove("foo"));
    assert!(!set.remove("foo"));
}

#[test]
fn content_is_compared_exactly() {
    let mut set = MultiSet::new();
    set.insert(String::from("foo"));
    assert!(!set.remove(" foo"));
    assert!(!set.remove("Foo"));
    assert!(!set.remove(""));
    assert!(set.remove("foo"));
}
