use todo_tracker::command::Command;
use todo_tracker::entry::TodoEntry;
use todo_tracker::action::Action;
use todo_tracker::report::{Channel, Prompt, Report};
use todo_tracker::state::{CommandState, State, STATE_MANIFEST_VERSION};

fn entry(name: &str, description: &str) -> TodoEntry {
    TodoEntry::new(name.to_string(), description.to_string())
}

fn state_of(entries: &[(&str, &str)]) -> State {
    let mut state = State::new();
    for (name, description) in entries {
        let outcome = Command::Add
            .execute(&mut state, CommandState::add(name.to_string(), description.to_string()));
        assert!(outcome.reports.is_empty());
        assert_eq!(outcome.next, Action::Done);
    }
    state
}

#[test]
fn a_new_state_is_empty_and_stays() {
    let state = State::new();
    assert!(state.entries.is_empty());
    assert!(!state.exit);
    assert_eq!(state.manifest_version, 1);
    assert_eq!(STATE_MANIFEST_VERSION, 1);
}

#[test]
fn a_new_entry_holds_its_texts() {
    let e = TodoEntry::new("milk".to_string(), "two litres".to_string());
    assert_eq!(e.name, "milk");
    assert_eq!(e.description, "two litres");
    assert_eq!(e.clone(), e);
}

#[test]
fn command_state_factories_fill_their_fields() {
    let empty = CommandState::empty();
    assert_eq!((empty.index, empty.name, empty.description), (None, None, None));
    let add = CommandState::add("n".to_string(), "d".to_string());
    assert_eq!(
        (add.index, add.name, add.description),
        (None, Some("n".to_string()), Some("d".to_string()))
    );
    let remove = CommandState::remove(7);
    assert_eq!((remove.index, remove.name, remove.description), (Some(7), None, None));
}

#[test]
fn add_appends_in_the_order_of_arrival() {
    let state = state_of(&[("b", "x"), ("a", "y"), ("b", "x")]);
    assert_eq!(state.entries, vec![entry("b", "x"), entry("a", "y"), entry("b", "x")]);
    assert!(!state.exit);
}

#[test]
fn add_without_its_texts_changes_nothing() {
    let mut state = state_of(&[("a", "b")]);
    for given in [
        CommandState::empty(),
        CommandState::remove(0),
        CommandState { index: None, name: Some("n".to_string()), description: None },
        CommandState { index: None, name: None, description: Some("d".to_string()) },
    ] {
        let outcome = Command::Add.execute(&mut state, given);
        assert_eq!(outcome.reports, vec![Report::EntryMissing]);
        assert_eq!(outcome.reports[0].channel(), Channel::Debug);
        assert_eq!(
            outcome.reports[0].text(),
            "command_state.name and command_state.description are required to be Some for Command::Add"
        );
        assert_eq!(outcome.next, Action::Done);
        assert_eq!(state.entries, vec![entry("a", "b")]);
    }
}

#[test]
fn remove_takes_the_entry_out_and_moves_the_rest_down() {
    let mut state = state_of(&[("a", "1"), ("b", "2"), ("c", "3"), ("d", "4")]);
    let outcome = Command::Remove.execute(&mut state, CommandState::remove(1));
    assert_eq!(outcome.reports, vec![Report::Removed { entry: entry("b", "2") }]);
    assert_eq!(outcome.reports[0].text(), "Removed entry b");
    assert_eq!(outcome.reports[0].channel(), Channel::Output);
    assert_eq!(outcome.next, Action::Done);
    assert_eq!(state.entries, vec![entry("a", "1"), entry("c", "3"), entry("d", "4")]);
}

#[test]
fn remove_of_first_and_last() {
    let mut state = state_of(&[("a", "1"), ("b", "2"), ("c", "3")]);
    Command::Remove.execute(&mut state, CommandState::remove(2));
    assert_eq!(state.entries, vec![entry("a", "1"), entry("b", "2")]);
    Command::Remove.execute(&mut state, CommandState::remove(0));
    assert_eq!(state.entries, vec![entry("b", "2")]);
    Command::Remove.execute(&mut state, CommandState::remove(0));
    assert!(state.entries.is_empty());
}

#[test]
fn remove_beyond_the_list_reports_and_changes_nothing() {
    let mut state = state_of(&[("a", "1"), ("b", "2")]);
    for index in [2usize, 3, usize::MAX] {
        let outcome = Command::Remove.execute(&mut state, CommandState::remove(index));
        assert_eq!(outcome.reports, vec![Report::NoEntryAt { index }]);
        assert_eq!(
            outcome.reports[0].text(),
            format!("No todo entry found at index {}", index)
        );
        assert_eq!(outcome.reports[0].channel(), Channel::Error);
        assert_eq!(outcome.next, Action::Done);
        assert_eq!(state.entries, vec![entry("a", "1"), entry("b", "2")]);
    }
}

#[test]
fn remove_from_an_empty_list_reports() {
    let mut state = State::new();
    let outcome = Command::Remove.execute(&mut state, CommandState::remove(0));
    assert_eq!(outcome.reports, vec![Report::NoEntryAt { index: 0 }]);
    assert_eq!(state, State::new());
}

#[test]
fn remove_without_an_index_changes_nothing() {
    let mut state = state_of(&[("a", "1")]);
    let outcome = Command::Remove.execute(&mut state, CommandState::empty());
    assert_eq!(outcome.reports, vec![Report::IndexMissing]);
    assert_eq!(outcome.reports[0].channel(), Channel::Debug);
    assert_eq!(
        outcome.reports[0].text(),
        "command_state.index is required to be Some for Command::Remove"
    );
    assert_eq!(state.entries, vec![entry("a", "1")]);
}

#[test]
fn remove_typed_reads_the_index() {
    let (given, reports) = CommandState::remove_typed("1");
    assert_eq!(given, CommandState::remove(1));
    assert!(reports.is_empty());
    let (given, reports) = CommandState::remove_typed("+12");
    assert_eq!(given, CommandState::remove(12));
    assert!(reports.is_empty());
}

#[test]
fn remove_typed_reports_what_is_no_index() {
    for text in ["", "x", "-1", "1.5", " 1", "1 ", "+", "one"] {
        let (given, reports) = CommandState::remove_typed(text);
        assert_eq!(given, CommandState::remove(usize::MAX), "{:?}", text);
        assert_eq!(reports, vec![Report::NotAnIndex], "{:?}", text);
        assert_eq!(reports[0].text(), "No entry found at that index");
        assert_eq!(reports[0].channel(), Channel::Error);
    }
}

#[test]
fn an_index_that_was_no_number_removes_nothing() {
    let mut state = state_of(&[("a", "1")]);
    let (given, _) = CommandState::remove_typed("first");
    let outcome = Command::Remove.execute(&mut state, given);
    assert_eq!(outcome.reports, vec![Report::NoEntryAt { index: usize::MAX }]);
    assert_eq!(state.entries, vec![entry("a", "1")]);
}

#[test]
fn clear_of_an_empty_list_reports_nothing_to_clear() {
    let mut state = State::new();
    let outcome = Command::Clear.execute(&mut state, CommandState::empty());
    assert_eq!(outcome.reports, vec![Report::NothingToClear]);
    assert_eq!(outcome.reports[0].text(), "Nothing to clear");
    assert_eq!(outcome.reports[0].channel(), Channel::Output);
    assert_eq!(outcome.next, Action::Done);
    assert_eq!(state, State::new());
}

#[test]
fn clear_of_one_entry_says_entry() {
    let mut state = state_of(&[("a", "1")]);
    let outcome = Command::Clear.execute(&mut state, CommandState::empty());
    assert_eq!(outcome.reports, vec![Report::Cleared { count: 1 }]);
    assert_eq!(outcome.reports[0].text(), "1 entry cleared");
    assert!(state.entries.is_empty());
}

#[test]
fn clear_of_more_entries_says_entries() {
    let mut state = state_of(&[("a", "1"), ("b", "2")]);
    let outcome = Command::Clear.execute(&mut state, CommandState::empty());
    assert_eq!(outcome.reports, vec![Report::Cleared { count: 2 }]);
    assert_eq!(outcome.reports[0].text(), "2 entries cleared");
    assert_eq!(outcome.reports[0].channel(), Channel::Output);
    assert!(state.entries.is_empty());
    assert!(!state.exit);
    assert_eq!(state.manifest_version, 1);

    let mut state = State::new();
    for i in 0..12 {
        Command::Add.execute(&mut state, CommandState::add(format!("n{}", i), String::new()));
    }
    let outcome = Command::Clear.execute(&mut state, CommandState::empty());
    assert_eq!(outcome.reports[0].text(), "12 entries cleared");
}

#[test]
fn add_asks_for_name_and_description() {
    assert_eq!(Command::Add.questions(), vec![Prompt::EntryName, Prompt::EntryDescription]);
    let (given, reports) =
        CommandState::gather(Command::Add, vec!["milk".to_string(), "two litres".to_string()]);
    assert_eq!(given, CommandState::add("milk".to_string(), "two litres".to_string()));
    assert!(reports.is_empty());
}

#[test]
fn remove_asks_for_the_index() {
    assert_eq!(Command::Remove.questions(), vec![Prompt::RemoveIndex]);
    let (given, reports) = CommandState::gather(Command::Remove, vec!["3".to_string()]);
    assert_eq!(given, CommandState::remove(3));
    assert!(reports.is_empty());
    let (given, reports) = CommandState::gather(Command::Remove, vec!["three".to_string()]);
    assert_eq!(given, CommandState::remove(usize::MAX));
    assert_eq!(reports, vec![Report::NotAnIndex]);
}

#[test]
fn the_other_commands_ask_nothing() {
    for command in [
        Command::Help,
        Command::List,
        Command::Clear,
        Command::Save,
        Command::Load,
        Command::Exit,
        Command::Unknown,
    ] {
        assert!(command.questions().is_empty());
        let (given, reports) = CommandState::gather(command, Vec::new());
        assert_eq!(given, CommandState::empty());
        assert!(reports.is_empty());
        let (given, reports) = CommandState::gather(command, vec!["1".to_string()]);
        assert_eq!(given, CommandState::empty());
        assert!(reports.is_empty());
    }
}

#[test]
fn missing_answers_leave_the_fields_empty() {
    let (given, reports) = CommandState::gather(Command::Add, vec!["milk".to_string()]);
    assert_eq!(given, CommandState::empty());
    assert!(reports.is_empty());
    let (given, reports) = CommandState::gather(Command::Remove, Vec::new());
    assert_eq!(given, CommandState::empty());
    assert!(reports.is_empty());
}

#[test]
fn answers_beyond_the_questions_are_not_used() {
    let answers = vec!["a".to_string(), "b".to_string(), "c".to_string()];
    let (given, _) = CommandState::gather(Command::Add, answers);
    assert_eq!(given, CommandState::add("a".to_string(), "b".to_string()));
    let (given, _) = CommandState::gather(Command::Remove, vec!["0".to_string(), "x".to_string()]);
    assert_eq!(given, CommandState::remove(0));
}

#[test]
fn a_session_of_typed_lines() {
    let mut state = State::new();
    let typed: [(&str, &[&str]); 5] = [
        ("add", &["b", "x"]),
        ("Add", &["a", "y"]),
        ("REMOVE", &["7"]),
        ("remove", &["0"]),
        ("nonsense", &[]),
    ];
    let mut said = Vec::new();
    for (line, answers) in typed {
        let command = Command::from(line.to_string());
        assert_eq!(command.questions().len(), answers.len());
        let (given, reports) =
            CommandState::gather(command, answers.iter().map(|a| a.to_string()).collect());
        said.extend(reports.iter().map(|r| r.text()));
        let outcome = command.execute(&mut state, given);
        said.extend(outcome.reports.iter().map(|r| r.text()));
        assert_eq!(outcome.next, Action::Done);
    }
    assert_eq!(said, vec!["No todo entry found at index 7", "Removed entry b", "Unknown command"]);
    assert_eq!(state.entries, vec![entry("a", "y")]);
}
