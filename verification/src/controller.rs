//! The application controller: the state of the browser and what each event
//! does to it.
//!
//! The controller performs no outside work itself. [`update`] takes one
//! event, changes the state and answers with the [`Action`] that the host is
//! to carry out; the host hands the outcome of that action back as the next
//! event.

use vstd::prelude::*;

use crate::converter::{command_for, converter_command, CommandView, ConverterCommand, ConverterOutcome};
use crate::paths::{conversion_target, target_of, text_view};
use crate::scanner::{
    entry_views, get_files, lemma_scan_well_ordered, scanned, well_ordered, DirectoryEntry,
    EntryView, Listing, RawEntryView,
};

verus! {

/// What the user asks for.
#[derive(Clone, Debug, PartialEq, Eq)]
pub enum Message {
    /// Leave the application.
    Exit,
    /// Show the directory at this path.
    Navigate(String),
    /// Extract the audio of the file at this path.
    ConvertFile(String),
    /// Take the notification away.
    DismissNotification,
}

/// Mathematical model of a [`Message`].
pub enum MessageView {
    Exit,
    Navigate(Seq<char>),
    ConvertFile(Seq<char>),
    DismissNotification,
}

impl View for Message {
    type V = MessageView;

    open spec fn view(&self) -> MessageView {
        match self {
            Message::Exit => MessageView::Exit,
            Message::Navigate(path) => MessageView::Navigate(path@),
            Message::ConvertFile(source) => MessageView::ConvertFile(source@),
            Message::DismissNotification => MessageView::DismissNotification,
        }
    }
}

/// What the controller reacts to: a message of the user, or the outcome of
/// an action that the controller asked for.
#[derive(Clone, Debug, PartialEq, Eq)]
pub enum Event {
    User(Message),
    /// The directory at `path` was read.
    DirectoryRead { path: String, listing: Listing },
    /// The converter was run.
    ConverterExited(ConverterOutcome),
}

/// Mathematical model of an [`Event`].
pub enum EventView {
    User(MessageView),
    DirectoryRead { path: Seq<char>, listing: Option<Seq<RawEntryView>> },
    ConverterExited(ConverterOutcome),
}

impl View for Event {
    type V = EventView;

    open spec fn view(&self) -> EventView {
        match self {
            Event::User(message) => EventView::User(message@),
            Event::DirectoryRead { path, listing } => EventView::DirectoryRead {
                path: path@,
                listing: listing@,
            },
            Event::ConverterExited(outcome) => EventView::ConverterExited(*outcome),
        }
    }
}

/// What the host is to do after an event.
#[derive(Clone, Debug, PartialEq, Eq)]
pub enum Action {
    Nothing,
    /// Close the window, which ends the application.
    CloseWindow,
    /// Read the directory at this path and report a [`Event::DirectoryRead`]
    /// for the same path.
    ReadDirectory(String),
    /// Run this command to its end and report a [`Event::ConverterExited`].
    RunConverter(ConverterCommand),
}

/// Mathematical model of an [`Action`].
pub enum ActionView {
    Nothing,
    CloseWindow,
    ReadDirectory(Seq<char>),
    RunConverter(CommandView),
}

impl View for Action {
    type V = ActionView;

    open spec fn view(&self) -> ActionView {
        match self {
            Action::Nothing => ActionView::Nothing,
            Action::CloseWindow => ActionView::CloseWindow,
            Action::ReadDirectory(path) => ActionView::ReadDirectory(path@),
            Action::RunConverter(command) => ActionView::RunConverter(command@),
        }
    }
}

/// Mathematical model of an [`AppState`].
pub struct StateView {
    pub current_directory: Seq<char>,
    pub entries: Seq<EntryView>,
    pub notification: Option<Seq<char>>,
}

/// The state of the browser: the directory shown, its entries as they were
/// at the last navigation, and the notification of the last conversion.
#[derive(Debug)]
pub struct AppState {
    current_directory: String,
    entries: Vec<DirectoryEntry>,
    notification: Option<String>,
}

impl View for AppState {
    type V = StateView;

    closed spec fn view(&self) -> StateView {
        StateView {
            current_directory: self.current_directory@,
            entries: entry_views(self.entries@),
            notification: text_view(self.notification),
        }
    }
}

/// The notification after a conversion that succeeded.
pub open spec fn success_text() -> Seq<char> {
    "Audio Has Been Ripped"@
}

/// The notification after a conversion that failed or could not be started.
pub open spec fn failure_text() -> Seq<char> {
    "Error Ripped"@
}

/// The notification that reports `outcome`.
pub open spec fn notification_for(outcome: ConverterOutcome) -> Seq<char> {
    if outcome == ConverterOutcome::Succeeded {
        success_text()
    } else {
        failure_text()
    }
}

/// The state after `event`.
///
/// A message that needs outside work leaves the state as it is; the state
/// changes when the outcome of that work arrives. A directory that was read
/// replaces the directory shown and its entries and leaves the notification;
/// the end of a conversion sets the notification; dismissing clears it.
pub open spec fn step(state: StateView, event: EventView) -> StateView {
    match event {
        EventView::User(MessageView::DismissNotification) => StateView {
            notification: None,
            ..state
        },
        EventView::User(_) => state,
        EventView::DirectoryRead { path, listing } => StateView {
            current_directory: path,
            entries: scanned(listing),
            notification: state.notification,
        },
        EventView::ConverterExited(outcome) => StateView {
            notification: Some(notification_for(outcome)),
            ..state
        },
    }
}

/// What the host is asked to do for the conversion of `source`, given where
/// its output goes: to run the converter, or nothing where there is no
/// target.
pub open spec fn conversion_action_for(
    source: Seq<char>,
    target: Option<Seq<char>>,
) -> ActionView {
    match target {
        Some(target) => ActionView::RunConverter(command_for(source, target)),
        None => ActionView::Nothing,
    }
}

/// What the host is asked to do after `event`.
///
/// Leaving closes the window. Navigating asks for the directory to be read.
/// Converting a file asks for the converter to be run on it, writing into
/// the file's own directory; for a path without a parent nothing is asked.
/// No other event asks for anything.
pub open spec fn action_for(event: EventView) -> ActionView {
    match event {
        EventView::User(MessageView::Exit) => ActionView::CloseWindow,
        EventView::User(MessageView::Navigate(path)) => ActionView::ReadDirectory(path),
        EventView::User(MessageView::ConvertFile(source)) => conversion_action_for(
            source,
            target_of(source),
        ),
        _ => ActionView::Nothing,
    }
}

impl AppState {
    #[verifier::type_invariant]
    spec fn entries_well_ordered(self) -> bool {
        well_ordered(entry_views(self.entries@))
    }

    /// The state in which the browser starts: it shows `directory`, whose
    /// reading gave `listing`, and no notification.
    pub fn new(directory: String, listing: &Listing) -> (state: AppState)
        ensures
            state@ == (StateView {
                current_directory: directory@,
                entries: scanned(listing@),
                notification: None,
            }),
    {
        let entries = get_files(listing);
        proof {
            lemma_scan_well_ordered(listing@);
        }
        AppState { current_directory: directory, entries, notification: None }
    }

    /// The path of the directory shown.
    pub fn current_directory(&self) -> (path: &String)
        ensures
            path@ == self@.current_directory,
    {
        &self.current_directory
    }

    /// The entries shown. In every state the directories precede the files
    /// and every file has a qualifying name.
    pub fn entries(&self) -> (entries: &Vec<DirectoryEntry>)
        ensures
            entry_views(entries@) == self@.entries,
            well_ordered(self@.entries),
    {
        proof {
            use_type_invariant(self);
        }
        &self.entries
    }

    /// The notification shown, if there is one.
    pub fn notification(&self) -> (text: &Option<String>)
        ensures
            text_view(*text) == self@.notification,
    {
        &self.notification
    }
}

/// The action for the conversion of `source` whose output goes to `target`.
pub fn conversion_action(source: &str, target: Option<String>) -> (action: Action)
    ensures
        action@ == conversion_action_for(source@, text_view(target)),
{
    match target {
        Some(target) => Action::RunConverter(converter_command(source, target.as_str())),
        None => Action::Nothing,
    }
}

/// Handles one event: changes the state as [`step`] says and returns the
/// action that [`action_for`] names.
pub fn update(state: &mut AppState, event: Event) -> (action: Action)
    ensures
        final(state)@ == step(old(state)@, event@),
        action@ == action_for(event@),
{
    proof {
        use_type_invariant(&*state);
    }
    match event {
        Event::User(Message::Exit) => Action::CloseWindow,
        Event::User(Message::Navigate(path)) => Action::ReadDirectory(path),
        Event::User(Message::ConvertFile(source)) => {
            let target = conversion_target(source.as_str());
            conversion_action(source.as_str(), target)
        },
        Event::User(Message::DismissNotification) => {
            state.notification = None;
            Action::Nothing
        },
        Event::DirectoryRead { path, listing } => {
            let entries = get_files(&listing);
            proof {
                lemma_scan_well_ordered(listing@);
            }
            state.current_directory = path;
            state.entries = entries;
            Action::Nothing
        },
        Event::ConverterExited(outcome) => {
            let text = match outcome {
                ConverterOutcome::Succeeded => "Audio Has Been Ripped".to_string(),
                _ => "Error Ripped".to_string(),
            };
            state.notification = Some(text);
            Action::Nothing
        },
    }
}

/// The state after the user asked for the directory at `path` and its
/// reading gave `listing`.
pub open spec fn navigated(
    state: StateView,
    path: Seq<char>,
    listing: Option<Seq<RawEntryView>>,
) -> StateView {
    step(
        step(state, EventView::User(MessageView::Navigate(path))),
        EventView::DirectoryRead { path, listing },
    )
}

/// After a navigation the state shows the directory asked for, with a fresh
/// scan of what its reading gave.
pub proof fn lemma_navigation_rescans(
    state: StateView,
    path: Seq<char>,
    listing: Option<Seq<RawEntryView>>,
)
    ensures
        navigated(state, path, listing).current_directory == path,
        navigated(state, path, listing).entries == scanned(listing),
        navigated(state, path, listing).notification == state.notification,
{
}

/// Going to a directory, from there to another (its parent, say) and back
/// gives the state that the first visit gave, as long as reading the
/// directory gives the same listing both times.
pub proof fn lemma_navigating_back_is_idempotent(
    state: StateView,
    child: Seq<char>,
    child_listing: Option<Seq<RawEntryView>>,
    other: Seq<char>,
    other_listing: Option<Seq<RawEntryView>>,
)
    ensures
        navigated(
            navigated(navigated(state, child, child_listing), other, other_listing),
            child,
            child_listing,
        ) == navigated(state, child, child_listing),
{
}

/// Only the arrival of a listing changes the directory shown and its
/// entries.
pub proof fn lemma_entries_change_only_on_arrival(state: StateView, event: EventView)
    requires
        !(event is DirectoryRead),
    ensures
        step(state, event).current_directory == state.current_directory,
        step(state, event).entries == state.entries,
{
}

/// Every event keeps the directories before the files and the files
/// qualifying.
pub proof fn lemma_step_keeps_order(state: StateView, event: EventView)
    requires
        well_ordered(state.entries),
    ensures
        well_ordered(step(state, event).entries),
{
    if let EventView::DirectoryRead { path, listing } = event {
        lemma_scan_well_ordered(listing);
    }
}

/// The end of a conversion sets the notification and nothing else: to the
/// success text if the converter reported success, to the failure text if it
/// reported failure or could not be started.
pub proof fn lemma_conversion_notifies(state: StateView, outcome: ConverterOutcome)
    ensures
        step(state, EventView::ConverterExited(outcome)) == (StateView {
            notification: Some(
                if outcome == ConverterOutcome::Succeeded {
                    success_text()
                } else {
                    failure_text()
                },
            ),
            ..state
        }),
{
}

/// Dismissing clears the notification and changes nothing else.
pub proof fn lemma_dismissing_clears(state: StateView)
    ensures
        step(state, EventView::User(MessageView::DismissNotification)) == (StateView {
            notification: None,
            ..state
        }),
{
}

/// The outcome of an action asks for no further action: the host is done
/// after at most one action for each message.
pub proof fn lemma_outcomes_ask_nothing(event: EventView)
    requires
        !(event is User),
    ensures
        action_for(event) == ActionView::Nothing,
{
}

} // verus!
