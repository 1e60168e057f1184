//! The commands and the words that name them.

use crate::spelling::{spelled, spells, titlecase, uppercase};
use vstd::prelude::*;

verus! {

/// What the user can ask for. `Unknown` stands for a line that names no
/// command.
#[derive(Clone, Copy, Debug, PartialEq, Eq, Structural, PartialOrd, Ord)]
pub enum Command {
    Help,
    List,
    Add,
    Remove,
    Clear,
    Save,
    Load,
    Exit,
    Unknown,
}

/// The commands that a user can name, in the order in which help lists them.
pub open spec fn named_commands() -> Seq<Command> {
    seq![
        Command::Help,
        Command::List,
        Command::Add,
        Command::Remove,
        Command::Clear,
        Command::Save,
        Command::Load,
        Command::Exit,
    ]
}

/// The command that `text` names: the one whose keyword it spells, `Unknown`
/// if there is none.
pub open spec fn command_named(text: Seq<char>) -> Command {
    if spells(text, Command::Help.keyword()) {
        Command::Help
    } else if spells(text, Command::List.keyword()) {
        Command::List
    } else if spells(text, Command::Add.keyword()) {
        Command::Add
    } else if spells(text, Command::Remove.keyword()) {
        Command::Remove
    } else if spells(text, Command::Clear.keyword()) {
        Command::Clear
    } else if spells(text, Command::Save.keyword()) {
        Command::Save
    } else if spells(text, Command::Load.keyword()) {
        Command::Load
    } else if spells(text, Command::Exit.keyword()) {
        Command::Exit
    } else {
        Command::Unknown
    }
}

impl Command {
    /// The keyword of the command, in lower case.
    pub open spec fn keyword(self) -> Seq<char> {
        match self {
            Command::Help => "help"@,
            Command::List => "list"@,
            Command::Add => "add"@,
            Command::Remove => "remove"@,
            Command::Clear => "clear"@,
            Command::Save => "save"@,
            Command::Load => "load"@,
            Command::Exit => "exit"@,
            Command::Unknown => Seq::empty(),
        }
    }

    /// What the command does, in one line.
    pub open spec fn summary(self) -> Seq<char> {
        match self {
            Command::Help => "Displays a help message"@,
            Command::List => "Lists all todo entries"@,
            Command::Add => "Adds a new todo entry"@,
            Command::Remove => "Removes a todo entry by its index"@,
            Command::Clear => "Clears all todo entries"@,
            Command::Save => "Saves the current todo entries to a file"@,
            Command::Load => "Loads the todo entries from a file"@,
            Command::Exit => "Exits the program"@,
            Command::Unknown => Seq::empty(),
        }
    }

    /// The name under which the command is shown.
    pub open spec fn title(self) -> Seq<char> {
        match self {
            Command::Help => "Help"@,
            Command::List => "List"@,
            Command::Add => "Add"@,
            Command::Remove => "Remove"@,
            Command::Clear => "Clear"@,
            Command::Save => "Save"@,
            Command::Load => "Load"@,
            Command::Exit => "Exit"@,
            Command::Unknown => "Unknown Command"@,
        }
    }

    /// The keyword of the command, in lower case. `Unknown` has none.
    pub fn key(&self) -> (key: &'static str)
        requires
            *self != Command::Unknown,
        ensures
            key@ == self.keyword(),
    {
        match self {
            Command::Help => "help",
            Command::List => "list",
            Command::Add => "add",
            Command::Remove => "remove",
            Command::Clear => "clear",
            Command::Save => "save",
            Command::Load => "load",
            Command::Exit => "exit",
            Command::Unknown => unreached(),
        }
    }

    /// What the command does, in one line. `Unknown` does nothing.
    pub fn description(&self) -> (description: &'static str)
        requires
            *self != Command::Unknown,
        ensures
            description@ == self.summary(),
    {
        match self {
            Command::Help => "Displays a help message",
            Command::List => "Lists all todo entries",
            Command::Add => "Adds a new todo entry",
            Command::Remove => "Removes a todo entry by its index",
            Command::Clear => "Clears all todo entries",
            Command::Save => "Saves the current todo entries to a file",
            Command::Load => "Loads the todo entries from a file",
            Command::Exit => "Exits the program",
            Command::Unknown => unreached(),
        }
    }

    /// The name under which the command is shown.
    pub fn name(&self) -> (name: &'static str)
        ensures
            name@ == self.title(),
    {
        match self {
            Command::Help => "Help",
            Command::List => "List",
            Command::Add => "Add",
            Command::Remove => "Remove",
            Command::Clear => "Clear",
            Command::Save => "Save",
            Command::Load => "Load",
            Command::Exit => "Exit",
            Command::Unknown => "Unknown Command",
        }
    }

    /// The name under which the command is shown, as an owned string.
    pub fn to_string(&self) -> (name: String)
        ensures
            name@ == self.title(),
    {
        String::from_str(self.name())
    }

    /// The commands that a user can name, in the order in which help lists
    /// them.
    pub fn named() -> (commands: Vec<Command>)
        ensures
            commands@ == named_commands(),
    {
        let mut commands: Vec<Command> = Vec::new();
        commands.push(Command::Help);
        commands.push(Command::List);
        commands.push(Command::Add);
        commands.push(Command::Remove);
        commands.push(Command::Clear);
        commands.push(Command::Save);
        commands.push(Command::Load);
        commands.push(Command::Exit);
        commands
    }

    /// Reads a line as a command.
    pub fn parse(text: &str) -> (command: Command)
        ensures
            command == command_named(text@),
    {
        proof {
            lemma_spellings();
        }
        if spelled(text, "help", "Help", "HELP") {
            Command::Help
        } else if spelled(text, "list", "List", "LIST") {
            Command::List
        } else if spelled(text, "add", "Add", "ADD") {
            Command::Add
        } else if spelled(text, "remove", "Remove", "REMOVE") {
            Command::Remove
        } else if spelled(text, "clear", "Clear", "CLEAR") {
            Command::Clear
        } else if spelled(text, "save", "Save", "SAVE") {
            Command::Save
        } else if spelled(text, "load", "Load", "LOAD") {
            Command::Load
        } else if spelled(text, "exit", "Exit", "EXIT") {
            Command::Exit
        } else {
            Command::Unknown
        }
    }
}

/// The spellings of the keywords, letter by letter.
pub proof fn lemma_spellings()
    ensures
        "Help"@ == titlecase("help"@),
        "HELP"@ == uppercase("help"@),
        "List"@ == titlecase("list"@),
        "LIST"@ == uppercase("list"@),
        "Add"@ == titlecase("add"@),
        "ADD"@ == uppercase("add"@),
        "Remove"@ == titlecase("remove"@),
        "REMOVE"@ == uppercase("remove"@),
        "Clear"@ == titlecase("clear"@),
        "CLEAR"@ == uppercase("clear"@),
        "Save"@ == titlecase("save"@),
        "SAVE"@ == uppercase("save"@),
        "Load"@ == titlecase("load"@),
        "LOAD"@ == uppercase("load"@),
        "Exit"@ == titlecase("exit"@),
        "EXIT"@ == uppercase("exit"@),
{
    reveal_strlit("help");
    reveal_strlit("Help");
    reveal_strlit("HELP");
    reveal_strlit("list");
    reveal_strlit("List");
    reveal_strlit("LIST");
    reveal_strlit("add");
    reveal_strlit("Add");
    reveal_strlit("ADD");
    reveal_strlit("remove");
    reveal_strlit("Remove");
    reveal_strlit("REMOVE");
    reveal_strlit("clear");
    reveal_strlit("Clear");
    reveal_strlit("CLEAR");
    reveal_strlit("save");
    reveal_strlit("Save");
    reveal_strlit("SAVE");
    reveal_strlit("load");
    reveal_strlit("Load");
    reveal_strlit("LOAD");
    reveal_strlit("exit");
    reveal_strlit("Exit");
    reveal_strlit("EXIT");
}

impl From<String> for Command {
    fn from(value: String) -> (command: Command) {
        Command::parse(value.as_str())
    }
}

impl vstd::std_specs::convert::FromSpecImpl<String> for Command {
    open spec fn obeys_from_spec() -> bool {
        true
    }

    open spec fn from_spec(value: String) -> Command {
        command_named(value@)
    }
}

} // verus!
