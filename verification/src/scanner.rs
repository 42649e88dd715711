//! The directory scanner: from what the file system reported about a
//! directory to the entries that the browser shows.

use vstd::prelude::*;
use vstd::string::*;

verus! {

/// How an entry is shown.
#[derive(Clone, Copy, Debug, PartialEq, Eq, Structural)]
pub enum EntryKind {
    Directory,
    File,
}

/// What the file system said an entry is.
#[derive(Clone, Copy, Debug, PartialEq, Eq, Structural)]
pub enum RawKind {
    /// The entry could not be read or its metadata could not be fetched.
    Unknown,
    /// The entry is a directory.
    Directory,
    /// The entry is anything else.
    Other,
}

/// One entry as the file system reported it.
#[derive(Clone, Debug, PartialEq, Eq)]
pub struct RawEntry {
    /// The entry's name, or `None` where the name is not valid Unicode.
    pub name: Option<String>,
    pub kind: RawKind,
}

/// Mathematical model of a [`RawEntry`].
pub struct RawEntryView {
    pub name: Option<Seq<char>>,
    pub kind: RawKind,
}

impl View for RawEntry {
    type V = RawEntryView;

    open spec fn view(&self) -> RawEntryView {
        RawEntryView {
            name: match self.name {
                Some(n) => Some(n@),
                None => None,
            },
            kind: self.kind,
        }
    }
}

/// The outcome of reading a directory.
#[derive(Clone, Debug, PartialEq, Eq)]
pub enum Listing {
    /// The path could not be read: it is missing, is no directory, or
    /// permission was denied.
    Unreadable,
    /// The entries in the order in which the file system enumerated them.
    Entries(Vec<RawEntry>),
}

impl View for Listing {
    type V = Option<Seq<RawEntryView>>;

    open spec fn view(&self) -> Option<Seq<RawEntryView>> {
        match self {
            Listing::Unreadable => None,
            Listing::Entries(raws) => Some(raws@.map_values(|r: RawEntry| r@)),
        }
    }
}

/// Mathematical model of a [`DirectoryEntry`].
pub struct EntryView {
    pub name: Seq<char>,
    pub kind: EntryKind,
}

/// One line of the browser: a subdirectory or a file that can be converted.
#[derive(Clone, Debug, PartialEq, Eq)]
pub struct DirectoryEntry {
    name: String,
    kind: EntryKind,
}

impl View for DirectoryEntry {
    type V = EntryView;

    closed spec fn view(&self) -> EntryView {
        EntryView { name: self.name@, kind: self.kind }
    }
}

/// The views of a sequence of entries.
pub open spec fn entry_views(entries: Seq<DirectoryEntry>) -> Seq<EntryView> {
    entries.map_values(|e: DirectoryEntry| e@)
}

/// A file is shown only if its name ends in `mkv`.
pub open spec fn qualifies(name: Seq<char>) -> bool {
    "mkv"@.is_suffix_of(name)
}

/// Whether a file of this name is shown.
pub fn is_media_name(name: &str) -> (shown: bool)
    ensures
        shown == qualifies(name@),
{
    proof {
        reveal_strlit("mkv");
    }
    let len: usize = name.unicode_len();
    if len < 3 {
        return false;
    }
    let shown = name.get_char(len - 3) == 'm' && name.get_char(len - 2) == 'k' && name.get_char(
        len - 1,
    ) == 'v';
    proof {
        let tail = name@.subrange(len - 3, len as int);
        if shown {
            assert("mkv"@ =~= tail);
        } else {
            assert(tail[0] == name@[len - 3]);
            assert(tail[1] == name@[len - 2]);
            assert(tail[2] == name@[len - 1]);
        }
    }
    shown
}

impl DirectoryEntry {
    /// The name under which the entry is shown.
    pub fn name(&self) -> (name: &String)
        ensures
            name@ == self@.name,
    {
        &self.name
    }

    /// Whether the entry is shown as a directory or as a file.
    pub fn kind(&self) -> (kind: EntryKind)
        ensures
            kind == self@.kind,
    {
        self.kind
    }
}

/// The name shown for a directory whose own name is not valid Unicode.
pub open spec fn unnamed_directory() -> Seq<char> {
    "unknown dir"@
}

/// The line that a reported entry gets among the directories, if it is a
/// directory.
pub open spec fn as_directory(raw: RawEntryView) -> Option<EntryView> {
    if raw.kind == RawKind::Directory {
        Some(
            EntryView {
                name: match raw.name {
                    Some(n) => n,
                    None => unnamed_directory(),
                },
                kind: EntryKind::Directory,
            },
        )
    } else {
        None
    }
}

/// The line that a reported entry gets among the files, if it is a file
/// whose name qualifies. A name that is not valid Unicode never qualifies.
pub open spec fn as_file(raw: RawEntryView) -> Option<EntryView> {
    match raw.name {
        Some(n) if raw.kind == RawKind::Other && qualifies(n) => Some(
            EntryView { name: n, kind: EntryKind::File },
        ),
        _ => None,
    }
}

/// The directories among the reported entries, in enumeration order.
pub open spec fn directories_of(raws: Seq<RawEntryView>) -> Seq<EntryView> {
    raws.filter_map(|r: RawEntryView| as_directory(r))
}

/// The qualifying files among the reported entries, in enumeration order.
pub open spec fn files_of(raws: Seq<RawEntryView>) -> Seq<EntryView> {
    raws.filter_map(|r: RawEntryView| as_file(r))
}

/// What the browser shows for a directory: nothing if it could not be read,
/// else its subdirectories followed by its qualifying files. Entries whose
/// kind is unknown appear in neither part.
pub open spec fn scanned(listing: Option<Seq<RawEntryView>>) -> Seq<EntryView> {
    match listing {
        None => Seq::empty(),
        Some(raws) => directories_of(raws) + files_of(raws),
    }
}

/// Turns the outcome of reading a directory into the entries to show.
pub fn get_files(listing: &Listing) -> (entries: Vec<DirectoryEntry>)
    ensures
        entry_views(entries@) == scanned(listing@),
        listing is Unreadable ==> entries@.len() == 0,
{
    let mut dirs: Vec<DirectoryEntry> = Vec::new();
    let mut files: Vec<DirectoryEntry> = Vec::new();
    if let Listing::Entries(raws) = listing {
        let ghost views = raws@.map_values(|r: RawEntry| r@);
        let mut i: usize = 0;
        while i < raws.len()
            invariant
                i <= raws.len(),
                views == raws@.map_values(|r: RawEntry| r@),
                entry_views(dirs@) == directories_of(views.take(i as int)),
                entry_views(files@) == files_of(views.take(i as int)),
            decreases raws.len() - i,
        {
            let raw = &raws[i];
            proof {
                views.lemma_filter_map_take_succ(|r: RawEntryView| as_directory(r), i as int);
                views.lemma_filter_map_take_succ(|r: RawEntryView| as_file(r), i as int);
                assert(views[i as int] == raw@);
            }
            let ghost old_dirs = dirs@;
            let ghost old_files = files@;
            match raw.kind {
                RawKind::Directory => {
                    let name = match &raw.name {
                        Some(n) => n.clone(),
                        None => "unknown dir".to_string(),
                    };
                    let entry = DirectoryEntry { name, kind: EntryKind::Directory };
                    assert(Some(entry@) == as_directory(raw@));
                    dirs.push(entry);
                    assert(entry_views(dirs@) =~= entry_views(old_dirs).push(entry@));
                },
                RawKind::Other => {
                    if let Some(n) = &raw.name {
                        if is_media_name(n.as_str()) {
                            let entry = DirectoryEntry { name: n.clone(), kind: EntryKind::File };
                            assert(Some(entry@) == as_file(raw@));
                            files.push(entry);
                            assert(entry_views(files@) =~= entry_views(old_files).push(entry@));
                        }
                    }
                },
                RawKind::Unknown => {},
            }
            i += 1;
        }
        assert(views.take(i as int) =~= views);
    }
    let ghost shown_dirs = dirs@;
    let ghost shown_files = files@;
    dirs.append(&mut files);
    assert(entry_views(dirs@) =~= entry_views(shown_dirs) + entry_views(shown_files));
    dirs
}

/// The test for being the line `line`.
pub open spec fn is_line(line: EntryView) -> spec_fn(EntryView) -> bool {
    |e: EntryView| e == line
}

/// The test for being shown as `line`.
pub open spec fn is_shown_as(line: EntryView) -> spec_fn(RawEntryView) -> bool {
    |r: RawEntryView| as_directory(r) == Some(line) || as_file(r) == Some(line)
}

/// How often `line` occurs among `entries`.
pub open spec fn occurrences(entries: Seq<EntryView>, line: EntryView) -> nat {
    entries.filter(is_line(line)).len()
}

/// How many of the reported entries are shown as `line`.
pub open spec fn sources(raws: Seq<RawEntryView>, line: EntryView) -> nat {
    raws.filter(is_shown_as(line)).len()
}

proof fn lemma_occurrences_in_parts(raws: Seq<RawEntryView>, line: EntryView)
    ensures
        occurrences(directories_of(raws), line) + occurrences(files_of(raws), line) == sources(
            raws,
            line,
        ),
    decreases raws.len(),
{
    if raws.len() > 0 {
        let rest = raws.drop_last();
        let last = raws.last();
        lemma_occurrences_in_parts(rest, line);
        reveal_with_fuel(Seq::filter, 2);
        match as_directory(last) {
            Some(e) => {
                assert(directories_of(raws) == directories_of(rest) + seq![e]);
                Seq::filter_distributes_over_add(directories_of(rest), seq![e], is_line(line));
                assert(seq![e].drop_last() =~= Seq::<EntryView>::empty());
                assert(seq![e].last() == e);
            },
            None => {},
        }
        match as_file(last) {
            Some(e) => {
                assert(files_of(raws) == files_of(rest) + seq![e]);
                Seq::filter_distributes_over_add(files_of(rest), seq![e], is_line(line));
                assert(seq![e].drop_last() =~= Seq::<EntryView>::empty());
                assert(seq![e].last() == e);
            },
            None => {},
        }
    }
}

/// Every reported subdirectory and every reported file whose name qualifies
/// is shown exactly once, and nothing else is shown: a line occurs in the
/// result as often as there are reported entries that are shown as it.
pub proof fn lemma_each_entry_once(raws: Seq<RawEntryView>, line: EntryView)
    ensures
        occurrences(scanned(Some(raws)), line) == sources(raws, line),
{
    lemma_occurrences_in_parts(raws, line);
    Seq::filter_distributes_over_add(directories_of(raws), files_of(raws), is_line(line));
}

/// What holds of a sequence of shown entries: all directories precede all
/// files, and every file has a qualifying name.
pub open spec fn well_ordered(entries: Seq<EntryView>) -> bool {
    &&& forall|i: int, j: int|
        0 <= i < j < entries.len() && entries[j].kind == EntryKind::Directory
            ==> entries[i].kind == EntryKind::Directory
    &&& forall|j: int|
        0 <= j < entries.len() && entries[j].kind == EntryKind::File ==> qualifies(
            #[trigger] entries[j].name,
        )
}

proof fn lemma_directories_are_directories(raws: Seq<RawEntryView>)
    ensures
        forall|i: int|
            0 <= i < directories_of(raws).len() ==> (#[trigger] directories_of(raws)[i]).kind
                == EntryKind::Directory,
    decreases raws.len(),
{
    if raws.len() > 0 {
        lemma_directories_are_directories(raws.drop_last());
    }
}

proof fn lemma_files_are_qualifying_files(raws: Seq<RawEntryView>)
    ensures
        forall|i: int|
            0 <= i < files_of(raws).len() ==> (#[trigger] files_of(raws)[i]).kind
                == EntryKind::File && qualifies(files_of(raws)[i].name),
    decreases raws.len(),
{
    if raws.len() > 0 {
        lemma_files_are_qualifying_files(raws.drop_last());
    }
}

/// In every scan all directories precede all files, and no file is shown
/// whose name does not qualify.
pub proof fn lemma_scan_well_ordered(listing: Option<Seq<RawEntryView>>)
    ensures
        well_ordered(scanned(listing)),
{
    if let Some(raws) = listing {
        lemma_directories_are_directories(raws);
        lemma_files_are_qualifying_files(raws);
    }
}

/// A directory that cannot be read is shown as empty.
pub proof fn lemma_unreadable_is_empty()
    ensures
        scanned(None).len() == 0,
{
}

} // verus!
