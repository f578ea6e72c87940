use dirlist::collect::collect;
use dirlist::entry::{EntryType, ListError, RawEntry};
use dirlist::is_even;
use dirlist::style::{name_color, row_background, NameColor, RowBackground};

fn raw(name: &str, is_file: bool) -> RawEntry {
    RawEntry {
        name: name.to_string(),
        len: 1,
        readonly: false,
        is_file,
        modified: Some(500),
        accessed: Some(500),
        created: Some(500),
    }
}

#[test]
fn kind_labels() {
    assert_eq!(EntryType::File.as_str(), "File");
    assert_eq!(EntryType::Dir.as_str(), "Dir");
}

#[test]
fn error_labels() {
    assert_eq!(ListError::DirectoryNotFound.label(), "directory not found");
    assert_eq!(ListError::AccessDenied.label(), "access denied");
    assert_eq!(ListError::MetadataUnavailable.label(), "metadata unavailable");
    assert_eq!(ListError::EmptyEntrySet.label(), "empty entry set");
}

#[test]
fn parity() {
    assert!(is_even(0));
    assert!(!is_even(1));
    assert!(is_even(2));
    assert!(!is_even(987));
}

#[test]
fn banding_alternates_and_repeats() {
    for i in 0..10usize {
        assert_eq!(row_background(i), row_background(i + 2));
        assert_ne!(row_background(i), row_background(i + 1));
    }
    assert_eq!(row_background(0), RowBackground::BrightBlack);
    assert_eq!(row_background(1), RowBackground::Black);
}

#[test]
fn name_colors_by_kind() {
    assert_eq!(name_color(EntryType::File), NameColor::Green);
    assert_eq!(name_color(EntryType::Dir), NameColor::Blue);
}

#[test]
fn exclude_hidden_removes_all_and_only_hidden() {
    let raws = vec![raw(".a", true), raw("b", true), raw(".c", false), raw("d", false)];
    let mut es = collect(&raws, 1000).unwrap();
    es.exclude_hidden();
    let names: Vec<&str> = es.entries.iter().map(|e| e.name.as_str()).collect();
    assert_eq!(names, vec!["b", "d"]);
    assert_eq!(es.name_len, 1);
}

#[test]
fn exclude_hidden_twice_is_idempotent() {
    let raws = vec![raw(".a", true), raw("b", true), raw("ccc", false)];
    let mut once = collect(&raws, 1000).unwrap();
    once.exclude_hidden();
    let mut twice = collect(&raws, 1000).unwrap();
    twice.exclude_hidden();
    twice.exclude_hidden();
    let names_once: Vec<String> = once.entries.iter().map(|e| e.name.clone()).collect();
    let names_twice: Vec<String> = twice.entries.iter().map(|e| e.name.clone()).collect();
    assert_eq!(names_once, names_twice);
    assert_eq!(once.name_len, twice.name_len);
}

#[test]
fn reverse_twice_restores_order() {
    let raws = vec![raw("one", true), raw("two", true), raw("three", false)];
    let mut es = collect(&raws, 1000).unwrap();
    es.reverse();
    let reversed: Vec<String> = es.entries.iter().map(|e| e.name.clone()).collect();
    assert_eq!(reversed, vec!["three", "two", "one"]);
    es.reverse();
    let names: Vec<String> = es.entries.iter().map(|e| e.name.clone()).collect();
    assert_eq!(names, vec!["one", "two", "three"]);
}

#[test]
fn filter_then_reverse_keeps_hidden_out() {
    let raws = vec![raw(".a", true), raw("b", true), raw(".c", false), raw("d", false)];
    let mut es = collect(&raws, 1000).unwrap();
    es.apply_transforms(true, true);
    let names: Vec<&str> = es.entries.iter().map(|e| e.name.as_str()).collect();
    assert_eq!(names, vec!["d", "b"]);
}

#[test]
fn no_transform_keeps_set_unchanged() {
    let raws = vec![raw(".a", true), raw("b", true)];
    let mut es = collect(&raws, 1000).unwrap();
    es.apply_transforms(false, false);
    let names: Vec<&str> = es.entries.iter().map(|e| e.name.as_str()).collect();
    assert_eq!(names, vec![".a", "b"]);
    assert_eq!(es.name_len, 2);
}

#[test]
fn ages_are_now_minus_timestamp() {
    let mut r = raw("f", true);
    r.modified = Some(400);
    r.accessed = Some(999);
    r.created = Some(0);
    let es = collect(&vec![r], 1000).unwrap();
    assert_eq!(es.entries[0].modified, 600);
    assert_eq!(es.entries[0].accessed, 1);
    assert_eq!(es.entries[0].created, 1000);
}

#[test]
fn collect_keeps_enumeration_order() {
    let raws = vec![raw("zeta", true), raw("alpha", false), raw("mid", true)];
    let es = collect(&raws, 1000).unwrap();
    let names: Vec<&str> = es.entries.iter().map(|e| e.name.as_str()).collect();
    assert_eq!(names, vec!["zeta", "alpha", "mid"]);
    assert!(matches!(es.entries[0].kind, EntryType::File));
    assert!(matches!(es.entries[1].kind, EntryType::Dir));
}
