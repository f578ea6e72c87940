use dirlist::collect::collect;
use dirlist::entry::{ListError, RawEntry};
use dirlist::{list_directory, list_directory_plain};

fn raw(name: &str, len: u64, is_file: bool) -> RawEntry {
    RawEntry {
        name: name.to_string(),
        len,
        readonly: false,
        is_file,
        modified: Some(900),
        accessed: Some(1000),
        created: Some(1000),
    }
}

fn sample_dir() -> Vec<RawEntry> {
    vec![raw("a.txt", 10, true), raw(".hidden", 0, true), raw("sub", 0, false)]
}

#[test]
fn collect_counts_and_width() {
    let raws = sample_dir();
    let es = collect(&raws, 1000).unwrap();
    assert_eq!(es.entries.len(), 3);
    // ".hidden" is the longest name
    assert_eq!(es.name_len, 7);
    assert_eq!(es.entries[0].name, "a.txt");
    assert_eq!(es.entries[0].len, 10);
    assert_eq!(es.entries[0].modified, 100);
    assert_eq!(es.entries[1].name, ".hidden");
    assert_eq!(es.entries[2].name, "sub");
}

#[test]
fn non_hidden_flag_drops_hidden_entry() {
    let raws = sample_dir();
    let lines = list_directory_plain(&raws, 1000, true, false).unwrap();
    // header + 2 surviving rows, in original relative order
    assert_eq!(lines.len(), 3);
    assert!(lines[1].contains("a.txt"));
    assert!(lines[2].contains("sub"));
    for line in &lines {
        assert!(!line.contains(".hidden"));
    }
}

#[test]
fn reverse_flag_reverses_enumeration_order() {
    let raws = sample_dir();
    let lines = list_directory_plain(&raws, 1000, false, true).unwrap();
    // header + all 3 rows, reversed, hidden entry still present
    assert_eq!(lines.len(), 4);
    assert!(lines[1].contains("sub"));
    assert!(lines[2].contains(".hidden"));
    assert!(lines[3].contains("a.txt"));
}

#[test]
fn empty_directory_fails_with_empty_entry_set() {
    let raws: Vec<RawEntry> = vec![];
    assert_eq!(list_directory_plain(&raws, 1000, false, false), Err(ListError::EmptyEntrySet));
    assert_eq!(list_directory(&raws, 1000, false, false), Err(ListError::EmptyEntrySet));
}

#[test]
fn filtering_everything_fails_with_empty_entry_set() {
    let raws = vec![raw(".a", 1, true), raw(".b", 2, true)];
    assert_eq!(list_directory_plain(&raws, 1000, true, false), Err(ListError::EmptyEntrySet));
}

#[test]
fn metadata_failure_aborts_whole_listing() {
    let mut raws = sample_dir();
    raws[1].modified = None;
    // the whole collection fails; no partial table comes back
    assert_eq!(collect(&raws, 1000).unwrap_err(), ListError::MetadataUnavailable);
    assert_eq!(
        list_directory_plain(&raws, 1000, false, false),
        Err(ListError::MetadataUnavailable)
    );
    assert_eq!(list_directory(&raws, 1000, false, false), Err(ListError::MetadataUnavailable));
}

#[test]
fn future_timestamp_is_unavailable_metadata() {
    let mut raws = sample_dir();
    raws[0].created = Some(2000);
    assert_eq!(
        list_directory_plain(&raws, 1000, false, false),
        Err(ListError::MetadataUnavailable)
    );
}

#[test]
fn plain_listing_exact_lines() {
    let raws = sample_dir();
    let lines = list_directory_plain(&raws, 1000, false, false).unwrap();
    assert_eq!(lines.len(), 4);
    assert_eq!(lines[0], "#  name    Len  Mod At  Readonly Kind ");
    assert_eq!(lines[1], " 0 a.txt     10     100 false    File ");
    assert_eq!(lines[2], " 1 .hidden    0     100 false    File ");
    assert_eq!(lines[3], " 2 sub        0     100 false    Dir  ");
}

#[test]
fn plain_rows_match_std_formatting() {
    let raws = sample_dir();
    let lines = list_directory_plain(&raws, 1000, false, false).unwrap();
    let w = 7;
    assert_eq!(lines[0], format!("{:2} {:w$} {:4} {:7} {:8} {:5}", "#", "name", "Len", "Mod At", "Readonly", "Kind"));
    assert_eq!(lines[1], format!("{:2} {:w$} {:4} {:7} {:8} {:5}", 0, "a.txt", 10, 100, false, "File"));
    assert_eq!(lines[2], format!("{:2} {:w$} {:4} {:7} {:8} {:5}", 1, ".hidden", 0, 100, false, "File"));
    assert_eq!(lines[3], format!("{:2} {:w$} {:4} {:7} {:8} {:5}", 2, "sub", 0, 100, false, "Dir"));
}

#[test]
fn row_count_is_entries_plus_header() {
    for n in 1..6usize {
        let raws: Vec<RawEntry> = (0..n).map(|i| raw(&format!("f{}", i), i as u64, true)).collect();
        let lines = list_directory_plain(&raws, 1000, false, false).unwrap();
        assert_eq!(lines.len(), n + 1);
        let styled = list_directory(&raws, 1000, false, false).unwrap();
        assert_eq!(styled.len(), n + 1);
    }
}

#[test]
fn name_fields_share_one_width() {
    let raws = vec![raw("a", 1, true), raw("longername.txt", 2, true), raw("mid", 3, false)];
    let lines = list_directory_plain(&raws, 1000, false, false).unwrap();
    // every line has the same length: only the name field varies in padding
    for line in &lines {
        assert_eq!(line.chars().count(), lines[0].chars().count());
    }
    // the name field is padded to the longest name's length
    assert!(lines[1].contains(&format!("{:14}", "a")));
    assert!(lines[3].contains(&format!("{:14}", "mid")));
}
