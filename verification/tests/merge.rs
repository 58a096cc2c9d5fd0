use beachhead_companion::error::CompanionError;
use beachhead_companion::inspector::InspectionError;
use beachhead_companion::merge::{merge_enumeration, merge_names};
use beachhead_companion::pending::Pending;

fn list(names: &[&str]) -> Vec<String> {
    names.iter().map(|name| (*name).to_owned()).collect()
}

/// The entries as pairs of name and mark, sorted by name.
fn sorted(merged: Vec<Pending<String>>) -> Vec<(String, bool)> {
    let mut entries: Vec<(String, bool)> =
        merged.into_iter().map(|pending| (pending.todo, pending.explicit)).collect();
    entries.sort();
    entries
}

fn entry(name: &str, explicit: bool) -> (String, bool) {
    (name.to_owned(), explicit)
}

#[test]
fn merge_of_nothing_is_empty() {
    assert_eq!(merge_names(&list(&[]), &list(&[])).len(), 0);
}

#[test]
fn merge_counts_each_identifier_once() {
    let merged = merge_names(&list(&["a", "b"]), &list(&["b", "c"]));
    assert_eq!(merged.len(), 3);
    assert_eq!(sorted(merged), vec![entry("a", true), entry("b", true), entry("c", false)]);
}

#[test]
fn merge_keeps_the_explicit_mark_when_enumeration_finds_the_same() {
    let merged = merge_names(&list(&["web"]), &list(&["web"]));
    assert_eq!(sorted(merged), vec![entry("web", true)]);
}

#[test]
fn merge_drops_names_that_are_listed_twice() {
    let merged = merge_names(&list(&["a", "a", "b", "a"]), &list(&["c", "c", "b"]));
    assert_eq!(sorted(merged), vec![entry("a", true), entry("b", true), entry("c", false)]);
}

#[test]
fn merge_of_enumerated_names_alone_marks_none_explicit() {
    let merged = merge_names(&list(&[]), &list(&["x", "y"]));
    assert_eq!(sorted(merged), vec![entry("x", false), entry("y", false)]);
}

#[test]
fn merge_tells_names_apart_by_every_character() {
    let merged = merge_names(&list(&["web", "Web", "web "]), &list(&["we", ""]));
    assert_eq!(
        sorted(merged),
        vec![
            entry("", false),
            entry("Web", true),
            entry("we", false),
            entry("web", true),
            entry("web ", true)
        ]
    );
}

#[test]
fn merge_without_enumeration_returns_the_explicit_names() {
    let (merged, result) = merge_enumeration(&list(&["a", "b"]), None);
    assert!(result.is_ok());
    assert_eq!(sorted(merged), vec![entry("a", true), entry("b", true)]);
}

#[test]
fn merge_with_enumeration_adds_what_was_found() {
    let (merged, result) = merge_enumeration(&list(&["a"]), Some(Ok(list(&["z", "a"]))));
    assert!(result.is_ok());
    assert_eq!(sorted(merged), vec![entry("a", true), entry("z", false)]);
}

#[test]
fn merge_after_failed_enumeration_returns_the_explicit_names_and_the_error() {
    let failure = InspectionError::Communication("socket closed".to_owned());
    let (merged, result) = merge_enumeration(&list(&["a", "b"]), Some(Err(failure)));
    assert_eq!(sorted(merged), vec![entry("a", true), entry("b", true)]);
    match result {
        Err(CompanionError::Inspection(InspectionError::Communication(cause))) => {
            assert_eq!(cause, "socket closed")
        }
        other => panic!("expected the enumeration failure, got {:?}", other),
    }
}

#[test]
fn merge_after_failed_enumeration_without_explicit_names_is_empty() {
    let failure = InspectionError::Malformed("not a list".to_owned());
    let (merged, result) = merge_enumeration(&list(&[]), Some(Err(failure)));
    assert_eq!(merged.len(), 0);
    assert!(matches!(result, Err(CompanionError::Inspection(InspectionError::Malformed(_)))));
}
