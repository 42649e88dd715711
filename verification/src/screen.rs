//! What the window shows: the rows of the browser, from top to bottom, as a
//! function of the state. The host draws them.

use vstd::prelude::*;
use vstd::string::*;

use crate::controller::{AppState, Message, MessageView};
use crate::paths::{join, joined, text_view, up_of, up_target};
use crate::scanner::{entry_views, DirectoryEntry, EntryKind, EntryView};

verus! {

/// One row of the window.
#[derive(Clone, Debug, PartialEq, Eq)]
pub enum Row {
    /// The label that names the directory shown. Its control leaves the
    /// application.
    Title(String),
    /// A horizontal rule.
    Rule,
    /// The notification. Its control dismisses it.
    Notification(String),
    /// The control that leads up, to the directory at this path.
    Up(String),
    /// A subdirectory. Its control leads to the directory at `path`.
    Directory { name: String, path: String },
    /// A file. Its control converts the file at `path`.
    File { name: String, path: String },
}

/// Mathematical model of a [`Row`].
pub enum RowView {
    Title(Seq<char>),
    Rule,
    Notification(Seq<char>),
    Up(Seq<char>),
    Directory { name: Seq<char>, path: Seq<char> },
    File { name: Seq<char>, path: Seq<char> },
}

impl View for Row {
    type V = RowView;

    open spec fn view(&self) -> RowView {
        match self {
            Row::Title(text) => RowView::Title(text@),
            Row::Rule => RowView::Rule,
            Row::Notification(text) => RowView::Notification(text@),
            Row::Up(path) => RowView::Up(path@),
            Row::Directory { name, path } => RowView::Directory { name: name@, path: path@ },
            Row::File { name, path } => RowView::File { name: name@, path: path@ },
        }
    }
}

/// The views of a sequence of rows.
pub open spec fn row_views(rows: Seq<Row>) -> Seq<RowView> {
    rows.map_values(|r: Row| r@)
}

/// The message that the control of a row sends, if the row has a control.
pub open spec fn message_of(row: RowView) -> Option<MessageView> {
    match row {
        RowView::Title(_) => Some(MessageView::Exit),
        RowView::Rule => None,
        RowView::Notification(_) => Some(MessageView::DismissNotification),
        RowView::Up(path) => Some(MessageView::Navigate(path)),
        RowView::Directory { name, path } => Some(MessageView::Navigate(path)),
        RowView::File { name, path } => Some(MessageView::ConvertFile(path)),
    }
}

/// The views of an optional message.
pub open spec fn message_view(message: Option<Message>) -> Option<MessageView> {
    match message {
        Some(m) => Some(m@),
        None => None,
    }
}

impl Row {
    /// The message that the control of this row sends when pressed.
    pub fn message(&self) -> (message: Option<Message>)
        ensures
            message_view(message) == message_of(self@),
    {
        match self {
            Row::Title(_) => Some(Message::Exit),
            Row::Rule => None,
            Row::Notification(_) => Some(Message::DismissNotification),
            Row::Up(path) => Some(Message::Navigate(path.clone())),
            Row::Directory { name: _, path } => Some(Message::Navigate(path.clone())),
            Row::File { name: _, path } => Some(Message::ConvertFile(path.clone())),
        }
    }
}

/// The text of the title for the directory at `directory`.
pub open spec fn title_of(directory: Seq<char>) -> Seq<char> {
    "cwd: "@ + directory
}

/// The rows above the entries: the title, a rule, the notification if there
/// is one, a rule, and the control that leads up to `up`.
pub open spec fn frame_rows(
    directory: Seq<char>,
    notification: Option<Seq<char>>,
    up: Seq<char>,
) -> Seq<RowView> {
    seq![RowView::Title(title_of(directory)), RowView::Rule] + (match notification {
        Some(text) => seq![RowView::Notification(text)],
        None => Seq::empty(),
    }) + seq![RowView::Rule, RowView::Up(up)]
}

/// The row of an entry whose full path is `path`.
pub open spec fn row_for(entry: EntryView, path: Seq<char>) -> RowView {
    match entry.kind {
        EntryKind::Directory => RowView::Directory { name: entry.name, path },
        EntryKind::File => RowView::File { name: entry.name, path },
    }
}

/// The row of an entry of the directory at `directory`.
pub open spec fn entry_row_in(directory: Seq<char>) -> spec_fn(EntryView) -> RowView {
    |entry: EntryView| row_for(entry, joined(directory, entry.name))
}

/// The rows of the window: the frame, then one row for each entry, in the
/// order of the entries. The up control leads to the parent of the directory
/// shown, and each entry's control to the entry's name pushed onto the
/// directory shown.
pub open spec fn rendered(
    directory: Seq<char>,
    entries: Seq<EntryView>,
    notification: Option<Seq<char>>,
) -> Seq<RowView> {
    frame_rows(directory, notification, up_of(directory)) + entries.map_values(
        entry_row_in(directory),
    )
}

/// Builds the rows above the entries.
pub fn frame(directory: &str, notification: &Option<String>, up: String) -> (rows: Vec<Row>)
    ensures
        row_views(rows@) == frame_rows(directory@, text_view(*notification), up@),
{
    let mut title = "cwd: ".to_string();
    title.append(directory);
    let mut rows: Vec<Row> = Vec::new();
    rows.push(Row::Title(title));
    rows.push(Row::Rule);
    if let Some(text) = notification {
        rows.push(Row::Notification(text.clone()));
    }
    rows.push(Row::Rule);
    rows.push(Row::Up(up));
    assert(row_views(rows@) =~= frame_rows(directory@, text_view(*notification), up@));
    rows
}

/// Builds the row of `entry`, whose full path is `path`.
pub fn entry_row(entry: &DirectoryEntry, path: String) -> (row: Row)
    ensures
        row@ == row_for(entry@, path@),
{
    match entry.kind() {
        EntryKind::Directory => Row::Directory { name: entry.name().clone(), path },
        EntryKind::File => Row::File { name: entry.name().clone(), path },
    }
}

/// Lays out the window for `state`.
pub fn view(state: &AppState) -> (rows: Vec<Row>)
    ensures
        row_views(rows@) == rendered(
            state@.current_directory,
            state@.entries,
            state@.notification,
        ),
{
    let directory = state.current_directory().as_str();
    let entries = state.entries();
    let mut rows = frame(directory, state.notification(), up_target(directory));
    let ghost frame_part = row_views(rows@);
    let mut i: usize = 0;
    while i < entries.len()
        invariant
            i <= entries.len(),
            directory@ == state@.current_directory,
            entry_views(entries@) == state@.entries,
            row_views(rows@) == frame_part + state@.entries.take(i as int).map_values(
                entry_row_in(directory@),
            ),
        decreases entries.len() - i,
    {
        let entry = &entries[i];
        let row = entry_row(entry, join(directory, entry.name().as_str()));
        let ghost before = row_views(rows@);
        rows.push(row);
        proof {
            assert(state@.entries[i as int] == entry@);
            assert(row_views(rows@) =~= before.push(row@));
            assert(state@.entries.take(i + 1).map_values(entry_row_in(directory@))
                =~= state@.entries.take(i as int).map_values(entry_row_in(directory@)).push(
                row@,
            ));
        }
        i += 1;
    }
    assert(state@.entries.take(i as int) =~= state@.entries);
    rows
}

} // verus!
