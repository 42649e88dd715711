use arip::scanner::{get_files, is_media_name, DirectoryEntry, EntryKind, Listing, RawEntry, RawKind};

fn dir(name: &str) -> RawEntry {
    RawEntry { name: Some(name.to_string()), kind: RawKind::Directory }
}

fn file(name: &str) -> RawEntry {
    RawEntry { name: Some(name.to_string()), kind: RawKind::Other }
}

fn shown(entries: &[DirectoryEntry]) -> Vec<(String, EntryKind)> {
    entries.iter().map(|e| (e.name().clone(), e.kind())).collect()
}

fn line(name: &str, kind: EntryKind) -> (String, EntryKind) {
    (name.to_string(), kind)
}

#[test]
fn movies_directory_shows_subdirectory_then_video() {
    let listing = Listing::Entries(vec![dir("sub"), file("a.mkv"), file("b.txt")]);
    let entries = get_files(&listing);
    assert_eq!(
        shown(&entries),
        vec![line("sub", EntryKind::Directory), line("a.mkv", EntryKind::File)]
    );
}

#[test]
fn directories_come_first_whatever_the_enumeration_order() {
    let listing = Listing::Entries(vec![
        file("z.mkv"),
        dir("beta"),
        file("notes.txt"),
        file("a.mkv"),
        dir("alpha"),
    ]);
    let entries = get_files(&listing);
    assert_eq!(
        shown(&entries),
        vec![
            line("beta", EntryKind::Directory),
            line("alpha", EntryKind::Directory),
            line("z.mkv", EntryKind::File),
            line("a.mkv", EntryKind::File),
        ]
    );
}

#[test]
fn every_directory_and_qualifying_file_is_shown_once() {
    let raws = vec![
        dir("one"),
        file("one.mkv"),
        dir("two"),
        file("skip.mp4"),
        file("two.mkv"),
        dir("three"),
    ];
    let entries = get_files(&Listing::Entries(raws.clone()));
    for raw in &raws {
        let name = raw.name.clone().unwrap();
        let count = entries.iter().filter(|e| *e.name() == name).count();
        let expected = if raw.kind == RawKind::Directory || name.ends_with("mkv") { 1 } else { 0 };
        assert_eq!(count, expected, "{}", name);
    }
    assert_eq!(entries.len(), 5);
    let first_file = entries.iter().position(|e| e.kind() == EntryKind::File).unwrap();
    assert!(entries[first_file..].iter().all(|e| e.kind() == EntryKind::File));
    assert!(entries[..first_file].iter().all(|e| e.kind() == EntryKind::Directory));
}

#[test]
fn entries_of_the_same_name_are_each_kept() {
    let listing = Listing::Entries(vec![dir("twin"), dir("twin"), file("twin")]);
    let entries = get_files(&listing);
    assert_eq!(
        shown(&entries),
        vec![line("twin", EntryKind::Directory), line("twin", EntryKind::Directory)]
    );
}

#[test]
fn unreadable_directory_is_empty() {
    let entries = get_files(&Listing::Unreadable);
    assert!(entries.is_empty());
}

#[test]
fn empty_directory_is_empty() {
    let entries = get_files(&Listing::Entries(Vec::new()));
    assert!(entries.is_empty());
}

#[test]
fn entries_of_unknown_kind_are_skipped() {
    let listing = Listing::Entries(vec![
        RawEntry { name: Some("gone.mkv".to_string()), kind: RawKind::Unknown },
        RawEntry { name: Some("gone".to_string()), kind: RawKind::Unknown },
        RawEntry { name: None, kind: RawKind::Unknown },
        file("kept.mkv"),
    ]);
    let entries = get_files(&listing);
    assert_eq!(shown(&entries), vec![line("kept.mkv", EntryKind::File)]);
}

#[test]
fn directory_without_unicode_name_gets_placeholder() {
    let listing = Listing::Entries(vec![
        RawEntry { name: None, kind: RawKind::Directory },
        dir("named"),
    ]);
    let entries = get_files(&listing);
    assert_eq!(
        shown(&entries),
        vec![line("unknown dir", EntryKind::Directory), line("named", EntryKind::Directory)]
    );
}

#[test]
fn file_without_unicode_name_is_skipped() {
    let listing = Listing::Entries(vec![RawEntry { name: None, kind: RawKind::Other }]);
    let entries = get_files(&listing);
    assert!(entries.is_empty());
}

#[test]
fn directories_are_kept_whatever_their_name() {
    let listing = Listing::Entries(vec![dir("b.txt"), dir("c.mkv"), dir("")]);
    let entries = get_files(&listing);
    assert_eq!(
        shown(&entries),
        vec![
            line("b.txt", EntryKind::Directory),
            line("c.mkv", EntryKind::Directory),
            line("", EntryKind::Directory),
        ]
    );
}

#[test]
fn media_names_end_in_mkv() {
    assert!(is_media_name("a.mkv"));
    assert!(is_media_name("mkv"));
    assert!(is_media_name("amkv"));
    assert!(is_media_name(".mkv"));
    assert!(is_media_name("film.final.mkv"));
    assert!(is_media_name("caf\u{e9}.mkv"));
    assert!(is_media_name("\u{1f3ac}mkv"));
}

#[test]
fn other_names_are_no_media_names() {
    assert!(!is_media_name(""));
    assert!(!is_media_name("kv"));
    assert!(!is_media_name("b.txt"));
    assert!(!is_media_name("a.MKV"));
    assert!(!is_media_name("a.mkv "));
    assert!(!is_media_name("a.mkv.part"));
    assert!(!is_media_name("a.mk"));
    assert!(!is_media_name("mk\u{e9}"));
    assert!(!is_media_name("\u{e9}kv"));
}

#[test]
fn media_names_agree_with_the_suffix_test_of_the_standard_library() {
    let names = ["", "v", "kv", "mkv", "xmkv", "a.mkv", "mkvx", "m k v", "\u{e9}mkv", "mkv\u{e9}"];
    for name in names {
        assert_eq!(is_media_name(name), name.ends_with("mkv"), "{:?}", name);
    }
}
