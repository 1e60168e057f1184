use todo_tracker::command::Command;
use todo_tracker::action::Action;
use todo_tracker::execute::help;
use todo_tracker::report::{Channel, Report};
use todo_tracker::state::{CommandState, State};

const NAMED: [Command; 8] = [
    Command::Help,
    Command::List,
    Command::Add,
    Command::Remove,
    Command::Clear,
    Command::Save,
    Command::Load,
    Command::Exit,
];

fn upper_first(word: &str) -> String {
    let mut letters = word.chars();
    let first = letters.next().unwrap().to_ascii_uppercase();
    let mut out = String::new();
    out.push(first);
    out.push_str(letters.as_str());
    out
}

#[test]
fn every_keyword_names_its_command_in_three_spellings() {
    for command in NAMED {
        let key = command.key();
        assert_eq!(Command::parse(key), command);
        assert_eq!(Command::parse(&upper_first(key)), command);
        assert_eq!(Command::parse(&key.to_ascii_uppercase()), command);
        assert_eq!(Command::from(key.to_string()), command);
    }
}

#[test]
fn add_is_matched_in_exactly_three_spellings() {
    assert_eq!(Command::parse("add"), Command::Add);
    assert_eq!(Command::parse("Add"), Command::Add);
    assert_eq!(Command::parse("ADD"), Command::Add);
    assert_eq!(Command::parse("aDD"), Command::Unknown);
    assert_eq!(Command::parse("adD"), Command::Unknown);
    assert_eq!(Command::parse("AdD"), Command::Unknown);
}

#[test]
fn other_lines_name_no_command() {
    for line in ["", " ", "foo", "help ", " help", "hel", "helps", "HeLp", "exit\n", "quit", "é"] {
        assert_eq!(Command::parse(line), Command::Unknown, "{:?}", line);
        assert_eq!(Command::from(line.to_string()), Command::Unknown, "{:?}", line);
    }
}

#[test]
fn keys_are_the_lower_case_keywords() {
    let keys: Vec<&str> = NAMED.iter().map(|c| c.key()).collect();
    assert_eq!(keys, vec!["help", "list", "add", "remove", "clear", "save", "load", "exit"]);
}

#[test]
fn descriptions_say_what_the_commands_do() {
    assert_eq!(Command::Help.description(), "Displays a help message");
    assert_eq!(Command::List.description(), "Lists all todo entries");
    assert_eq!(Command::Add.description(), "Adds a new todo entry");
    assert_eq!(Command::Remove.description(), "Removes a todo entry by its index");
    assert_eq!(Command::Clear.description(), "Clears all todo entries");
    assert_eq!(Command::Save.description(), "Saves the current todo entries to a file");
    assert_eq!(Command::Load.description(), "Loads the todo entries from a file");
    assert_eq!(Command::Exit.description(), "Exits the program");
}

#[test]
fn commands_are_shown_by_name() {
    let names: Vec<String> = NAMED.iter().map(|c| c.to_string()).collect();
    assert_eq!(names, vec!["Help", "List", "Add", "Remove", "Clear", "Save", "Load", "Exit"]);
    assert_eq!(Command::Unknown.to_string(), "Unknown Command");
    assert_eq!(Command::Unknown.name(), "Unknown Command");
}

#[test]
fn named_commands_come_in_declared_order_without_unknown() {
    assert_eq!(Command::named(), NAMED.to_vec());
}

#[test]
fn help_lists_every_named_command() {
    let reports = help();
    let lines: Vec<String> = reports.iter().map(|r| r.text()).collect();
    assert_eq!(
        lines,
        vec![
            "Help (help) : Displays a help message",
            "List (list) : Lists all todo entries",
            "Add (add) : Adds a new todo entry",
            "Remove (remove) : Removes a todo entry by its index",
            "Clear (clear) : Clears all todo entries",
            "Save (save) : Saves the current todo entries to a file",
            "Load (load) : Loads the todo entries from a file",
            "Exit (exit) : Exits the program",
        ]
    );
    assert!(reports.iter().all(|r| r.channel() == Channel::Output));
}

#[test]
fn help_command_changes_nothing() {
    let mut state = State::new();
    let outcome = Command::Help.execute(&mut state, CommandState::empty());
    assert_eq!(outcome.reports, help());
    assert_eq!(outcome.next, Action::Done);
    assert_eq!(state, State::new());
}

#[test]
fn unknown_command_reports_and_changes_nothing() {
    let mut state = State::new();
    Command::Add.execute(&mut state, CommandState::add("a".to_string(), "b".to_string()));
    let before = state.clone();
    let command = Command::from("foo".to_string());
    assert_eq!(command, Command::Unknown);
    let outcome = command.execute(&mut state, CommandState::empty());
    assert_eq!(outcome.reports, vec![Report::UnknownCommand]);
    assert_eq!(outcome.reports[0].text(), "Unknown command");
    assert_eq!(outcome.reports[0].channel(), Channel::Error);
    assert_eq!(outcome.next, Action::Done);
    assert_eq!(state, before);
}

#[test]
fn unknown_command_ignores_what_it_is_given() {
    let mut state = State::new();
    let outcome = Command::Unknown.execute(&mut state, CommandState::remove(0));
    assert_eq!(outcome.reports, vec![Report::UnknownCommand]);
    let outcome =
        Command::Unknown.execute(&mut state, CommandState::add("a".to_string(), "b".to_string()));
    assert_eq!(outcome.reports, vec![Report::UnknownCommand]);
    assert_eq!(state, State::new());
}
