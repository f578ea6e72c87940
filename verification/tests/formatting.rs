use dirlist::collect::{collect, EntrySet};
use dirlist::entry::{Entry, EntryType, ListError, RawEntry};
use dirlist::render::{header_string, render, render_plain, row_string};
use dirlist::textfmt::{bool_str, pad_left, pad_right, u64_string, usize_string};

fn entry(name: &str, len: u64, kind: EntryType, readonly: bool) -> Entry {
    Entry {
        name: name.to_string(),
        len,
        modified: 100,
        accessed: 0,
        created: 0,
        kind,
        readonly,
    }
}

#[test]
fn decimal_rendering_exact() {
    assert_eq!(u64_string(0), "0");
    assert_eq!(u64_string(7), "7");
    assert_eq!(u64_string(10), "10");
    assert_eq!(u64_string(105), "105");
    assert_eq!(u64_string(u64::MAX), "18446744073709551615");
    assert_eq!(usize_string(42), "42");
}

#[test]
fn padding_reaches_width() {
    assert_eq!(pad_right("ab", 5), "ab   ");
    assert_eq!(pad_left("ab", 5), "   ab");
    assert_eq!(pad_right("", 3), "   ");
    assert_eq!(pad_left("", 3), "   ");
}

#[test]
fn padding_keeps_long_text_whole() {
    assert_eq!(pad_right("abcdef", 3), "abcdef");
    assert_eq!(pad_left("abcdef", 3), "abcdef");
    assert_eq!(pad_right("abc", 3), "abc");
    assert_eq!(pad_left("abc", 3), "abc");
}

#[test]
fn bool_labels() {
    assert_eq!(bool_str(true), "true");
    assert_eq!(bool_str(false), "false");
}

#[test]
fn header_matches_std_formatting() {
    for w in [1usize, 4, 7, 20] {
        assert_eq!(
            header_string(w),
            format!("{:2} {:w$} {:4} {:7} {:8} {:5}", "#", "name", "Len", "Mod At", "Readonly", "Kind")
        );
    }
}

#[test]
fn row_matches_std_formatting() {
    let e = entry("notes.md", 2048, EntryType::File, true);
    assert_eq!(
        row_string(3, &e, 10),
        format!("{:2} {:10} {:4} {:7} {:8} {:5}", 3, "notes.md", 2048, 100, true, "File")
    );
    let d = entry("src", 0, EntryType::Dir, false);
    assert_eq!(
        row_string(12, &d, 3),
        format!("{:2} {:3} {:4} {:7} {:8} {:5}", 12, "src", 0, 100, false, "Dir")
    );
}

#[test]
fn wide_fields_grow_past_field_width() {
    // a three-digit position and a five-digit length push their fields wider
    let e = entry("x", 10000, EntryType::File, false);
    let row = row_string(100, &e, 1);
    assert_eq!(row, format!("{:2} {:1} {:4} {:7} {:8} {:5}", 100, "x", 10000, 100, false, "File"));
}

#[test]
fn render_plain_empty_set_fails() {
    let es = EntrySet { entries: vec![], name_len: 0 };
    assert_eq!(render_plain(&es).unwrap_err(), ListError::EmptyEntrySet);
    assert_eq!(render(&es).unwrap_err(), ListError::EmptyEntrySet);
}

#[test]
fn styled_lines_carry_plain_text_when_colors_are_off() {
    colored::control::set_override(false);
    let raws = vec![
        RawEntry {
            name: "a.txt".to_string(),
            len: 10,
            readonly: false,
            is_file: true,
            modified: Some(900),
            accessed: Some(1000),
            created: Some(1000),
        },
        RawEntry {
            name: "sub".to_string(),
            len: 0,
            readonly: true,
            is_file: false,
            modified: Some(900),
            accessed: Some(1000),
            created: Some(1000),
        },
    ];
    let es = collect(&raws, 1000).unwrap();
    let plain = render_plain(&es).unwrap();
    let styled = render(&es).unwrap();
    assert_eq!(styled, plain);
    colored::control::unset_override();
}

#[test]
fn styled_lines_are_decorated_when_colors_are_forced() {
    colored::control::set_override(true);
    let e = entry("a.txt", 10, EntryType::File, false);
    let es = EntrySet { entries: vec![e], name_len: 5 };
    let plain = render_plain(&es).unwrap();
    let styled = render(&es).unwrap();
    assert_eq!(styled.len(), 2);
    // the plain text survives inside the decorated lines
    assert!(styled[0].contains("name"));
    assert!(styled[1].contains("a.txt"));
    // the decoration is real: escape sequences around the text
    assert_ne!(styled[0], plain[0]);
    assert_ne!(styled[1], plain[1]);
    assert!(styled[0].contains('\u{1b}'));
    assert!(styled[1].contains('\u{1b}'));
    colored::control::unset_override();
}
