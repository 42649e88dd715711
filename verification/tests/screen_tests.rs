use arip::controller::{update, AppState, Event, Message};
use arip::converter::ConverterOutcome;
use arip::scanner::{Listing, RawEntry, RawKind};
use arip::screen::{entry_row, frame, view, Row};

fn movies() -> AppState {
    let listing = Listing::Entries(vec![
        RawEntry { name: Some("sub".to_string()), kind: RawKind::Directory },
        RawEntry { name: Some("a.mkv".to_string()), kind: RawKind::Other },
        RawEntry { name: Some("b.txt".to_string()), kind: RawKind::Other },
    ]);
    AppState::new("/movies".to_string(), &listing)
}

fn text(s: &str) -> String {
    s.to_string()
}

#[test]
fn window_shows_title_up_control_and_entries() {
    let rows = view(&movies());
    assert_eq!(
        rows,
        vec![
            Row::Title(text("cwd: /movies")),
            Row::Rule,
            Row::Rule,
            Row::Up(text("/")),
            Row::Directory { name: text("sub"), path: text("/movies/sub") },
            Row::File { name: text("a.mkv"), path: text("/movies/a.mkv") },
        ]
    );
}

#[test]
fn notification_is_shown_between_the_rules() {
    let mut state = movies();
    update(&mut state, Event::ConverterExited(ConverterOutcome::Failed));
    let rows = view(&state);
    assert_eq!(rows.len(), 7);
    assert_eq!(rows[1], Row::Rule);
    assert_eq!(rows[2], Row::Notification(text("Error Ripped")));
    assert_eq!(rows[3], Row::Rule);
    update(&mut state, Event::User(Message::DismissNotification));
    assert_eq!(view(&state).len(), 6);
}

#[test]
fn up_control_of_the_root_stays_in_the_root() {
    let state = AppState::new("/".to_string(), &Listing::Entries(Vec::new()));
    let rows = view(&state);
    assert_eq!(
        rows,
        vec![Row::Title(text("cwd: /")), Row::Rule, Row::Rule, Row::Up(text("/"))]
    );
}

#[test]
fn unreadable_directory_shows_the_frame_alone() {
    let state = AppState::new("/a/b".to_string(), &Listing::Unreadable);
    let rows = view(&state);
    assert_eq!(
        rows,
        vec![Row::Title(text("cwd: /a/b")), Row::Rule, Row::Rule, Row::Up(text("/a"))]
    );
}

#[test]
fn controls_send_the_messages_of_their_rows() {
    let mut state = movies();
    update(&mut state, Event::ConverterExited(ConverterOutcome::Succeeded));
    let messages: Vec<Option<Message>> = view(&state).iter().map(|row| row.message()).collect();
    assert_eq!(
        messages,
        vec![
            Some(Message::Exit),
            None,
            Some(Message::DismissNotification),
            None,
            Some(Message::Navigate(text("/"))),
            Some(Message::Navigate(text("/movies/sub"))),
            Some(Message::ConvertFile(text("/movies/a.mkv"))),
        ]
    );
}

#[test]
fn pressing_a_file_row_leads_to_the_conversion_beside_it() {
    let mut state = movies();
    let rows = view(&state);
    let message = rows[5].message().unwrap();
    match update(&mut state, Event::User(message)) {
        arip::controller::Action::RunConverter(command) => {
            assert_eq!(command.arguments, vec!["-i", "/movies/a.mkv", "-y", "/movies/output.mp3"]);
        }
        other => panic!("no conversion asked for: {:?}", other),
    }
}

#[test]
fn frame_holds_the_notification_only_if_there_is_one() {
    let without = frame("/x", &None, text("/"));
    assert_eq!(without, vec![Row::Title(text("cwd: /x")), Row::Rule, Row::Rule, Row::Up(text("/"))]);
    let with = frame("/x", &Some(text("note")), text("/"));
    assert_eq!(
        with,
        vec![
            Row::Title(text("cwd: /x")),
            Row::Rule,
            Row::Notification(text("note")),
            Row::Rule,
            Row::Up(text("/")),
        ]
    );
}

#[test]
fn entry_rows_follow_the_kind_of_the_entry() {
    let state = movies();
    let entries = state.entries();
    assert_eq!(
        entry_row(&entries[0], text("/p/sub")),
        Row::Directory { name: text("sub"), path: text("/p/sub") }
    );
    assert_eq!(
        entry_row(&entries[1], text("/p/a.mkv")),
        Row::File { name: text("a.mkv"), path: text("/p/a.mkv") }
    );
}

#[test]
fn directory_with_trailing_separator_joins_without_doubling_it() {
    let listing = Listing::Entries(vec![RawEntry {
        name: Some("sub".to_string()),
        kind: RawKind::Directory,
    }]);
    let state = AppState::new("/movies/".to_string(), &listing);
    let rows = view(&state);
    assert_eq!(rows[4], Row::Directory { name: text("sub"), path: text("/movies/sub") });
}
