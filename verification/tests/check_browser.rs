//! Tests for the check browser's item list.

use fltk::browser::CheckBrowser;
use fltk::tracker::Toolkit;

#[test]
fn add_returns_the_running_count() {
    let mut tk = Toolkit::new();
    let browser = CheckBrowser::new(&mut tk, 0, 0, 200, 300, "");
    assert_eq!(browser.nitems(&tk), 0);
    assert_eq!(browser.add(&mut tk, "first", false), 1);
    assert_eq!(browser.add(&mut tk, "second", true), 2);
    assert_eq!(browser.add(&mut tk, "third", true), 3);
    assert_eq!(browser.nitems(&tk), 3);
    assert_eq!(browser.nchecked(&tk), 2);
}

#[test]
fn items_are_numbered_from_one() {
    let mut tk = Toolkit::new();
    let browser = CheckBrowser::new(&mut tk, 0, 0, 200, 300, "");
    browser.add(&mut tk, "alpha", true);
    browser.add(&mut tk, "beta", false);
    assert_eq!(browser.text(&tk, 1), Some(String::from("alpha")));
    assert_eq!(browser.text(&tk, 2), Some(String::from("beta")));
    assert_eq!(browser.text(&tk, 0), None);
    assert_eq!(browser.text(&tk, 3), None);
    assert!(browser.checked(&tk, 1));
    assert!(!browser.checked(&tk, 2));
    // out-of-range items count as unchecked
    assert!(!browser.checked(&tk, 0));
    assert!(!browser.checked(&tk, 9));
}

#[test]
fn set_checked_marks_one_item() {
    let mut tk = Toolkit::new();
    let browser = CheckBrowser::new(&mut tk, 0, 0, 200, 300, "");
    browser.add(&mut tk, "a", false);
    browser.add(&mut tk, "b", false);
    browser.set_checked(&mut tk, 2);
    assert!(!browser.checked(&tk, 1));
    assert!(browser.checked(&tk, 2));
    assert_eq!(browser.nchecked(&tk), 1);
}

#[test]
fn check_all_and_check_none_toggle_every_item() {
    let mut tk = Toolkit::new();
    let browser = CheckBrowser::new(&mut tk, 0, 0, 200, 300, "");
    browser.add(&mut tk, "a", false);
    browser.add(&mut tk, "b", true);
    browser.add(&mut tk, "c", false);
    browser.check_all(&mut tk);
    assert_eq!(browser.nchecked(&tk), 3);
    assert!(browser.checked(&tk, 1) && browser.checked(&tk, 2) && browser.checked(&tk, 3));
    browser.check_none(&mut tk);
    assert_eq!(browser.nchecked(&tk), 0);
    // the texts survive the toggling
    assert_eq!(browser.text(&tk, 2), Some(String::from("b")));
}

#[test]
fn remove_drops_one_item_and_clear_drops_all() {
    let mut tk = Toolkit::new();
    let browser = CheckBrowser::new(&mut tk, 0, 0, 200, 300, "");
    browser.add(&mut tk, "a", true);
    browser.add(&mut tk, "b", true);
    browser.add(&mut tk, "c", false);
    assert_eq!(browser.remove(&mut tk, 2), 2);
    assert_eq!(browser.text(&tk, 1), Some(String::from("a")));
    assert_eq!(browser.text(&tk, 2), Some(String::from("c")));
    assert_eq!(browser.nchecked(&tk), 1);
    browser.clear(&mut tk);
    assert_eq!(browser.nitems(&tk), 0);
    assert_eq!(browser.nchecked(&tk), 0);
}
