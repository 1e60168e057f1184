//! What a command has to say, and the questions put to the user.

use crate::command::Command;
use crate::entry::{EntryText, TodoEntry};
use crate::number::{decimal, decimal_text};
use vstd::prelude::*;

verus! {

/// Where a report goes.
#[derive(Clone, Copy, Debug, PartialEq, Eq, Structural)]
pub enum Channel {
    /// The regular output.
    Output,
    /// The error output.
    Error,
    /// The error output, in a debug build only: the caller of the library
    /// left out something that the command needs.
    Debug,
}

/// What a command has to say, over entries of type `E`.
#[derive(Debug, PartialEq, Eq)]
pub enum ReportOf<E> {
    /// One line of help.
    HelpLine { command: Command },
    NothingToList,
    /// An entry of the list was not found in its sorted order.
    LookupFailed,
    /// One line of the list: an entry and its place in the sorted order.
    Listed { place: usize, entry: E },
    /// `Add` was given no name or no description.
    EntryMissing,
    Removed { entry: E },
    NoEntryAt { index: usize },
    /// `Remove` was given no index.
    IndexMissing,
    NothingToClear,
    Cleared { count: usize },
    NothingToSave,
    NotSerialized,
    NotWritten,
    Saved,
    NoSaveFile,
    NotRead,
    NotParsed,
    OlderVersion,
    NewerVersion,
    UnclearAnswer,
    /// The save file could not be used, so the list stays as it is.
    LoadRefused,
    Loaded { count: usize },
    UnknownCommand,
    /// What was typed for an index is no number.
    NotAnIndex,
}

/// A report as commands make it.
pub type Report = ReportOf<TodoEntry>;

/// What a [`Report`] says.
pub type ReportView = ReportOf<EntryText>;

impl View for ReportOf<TodoEntry> {
    type V = ReportOf<EntryText>;

    open spec fn view(&self) -> ReportOf<EntryText> {
        match *self {
            ReportOf::HelpLine { command } => ReportOf::HelpLine { command },
            ReportOf::NothingToList => ReportOf::NothingToList,
            ReportOf::LookupFailed => ReportOf::LookupFailed,
            ReportOf::Listed { place, entry } => ReportOf::Listed { place, entry: entry@ },
            ReportOf::EntryMissing => ReportOf::EntryMissing,
            ReportOf::Removed { entry } => ReportOf::Removed { entry: entry@ },
            ReportOf::NoEntryAt { index } => ReportOf::NoEntryAt { index },
            ReportOf::IndexMissing => ReportOf::IndexMissing,
            ReportOf::NothingToClear => ReportOf::NothingToClear,
            ReportOf::Cleared { count } => ReportOf::Cleared { count },
            ReportOf::NothingToSave => ReportOf::NothingToSave,
            ReportOf::NotSerialized => ReportOf::NotSerialized,
            ReportOf::NotWritten => ReportOf::NotWritten,
            ReportOf::Saved => ReportOf::Saved,
            ReportOf::NoSaveFile => ReportOf::NoSaveFile,
            ReportOf::NotRead => ReportOf::NotRead,
            ReportOf::NotParsed => ReportOf::NotParsed,
            ReportOf::OlderVersion => ReportOf::OlderVersion,
            ReportOf::NewerVersion => ReportOf::NewerVersion,
            ReportOf::UnclearAnswer => ReportOf::UnclearAnswer,
            ReportOf::LoadRefused => ReportOf::LoadRefused,
            ReportOf::Loaded { count } => ReportOf::Loaded { count },
            ReportOf::UnknownCommand => ReportOf::UnknownCommand,
            ReportOf::NotAnIndex => ReportOf::NotAnIndex,
        }
    }
}

/// What each of `reports` says.
pub open spec fn said(reports: Seq<Report>) -> Seq<ReportView> {
    reports.map_values(|r: Report| r@)
}

/// "entry" for one, "entries" for more.
pub open spec fn entries_word(count: usize) -> Seq<char> {
    if count > 1 {
        "entries"@
    } else {
        "entry"@
    }
}

impl<E> ReportOf<E> {
    /// Where the report goes.
    pub open spec fn destination(self) -> Channel {
        match self {
            ReportOf::HelpLine { .. }
            | ReportOf::NothingToList
            | ReportOf::Listed { .. }
            | ReportOf::Removed { .. }
            | ReportOf::NothingToClear
            | ReportOf::Cleared { .. }
            | ReportOf::NothingToSave
            | ReportOf::Saved
            | ReportOf::Loaded { .. } => Channel::Output,
            ReportOf::EntryMissing | ReportOf::IndexMissing => Channel::Debug,
            _ => Channel::Error,
        }
    }

    /// Where the report goes.
    pub fn channel(&self) -> (channel: Channel)
        ensures
            channel == self.destination(),
    {
        match self {
            ReportOf::HelpLine { .. }
            | ReportOf::NothingToList
            | ReportOf::Listed { .. }
            | ReportOf::Removed { .. }
            | ReportOf::NothingToClear
            | ReportOf::Cleared { .. }
            | ReportOf::NothingToSave
            | ReportOf::Saved
            | ReportOf::Loaded { .. } => Channel::Output,
            ReportOf::EntryMissing | ReportOf::IndexMissing => Channel::Debug,
            _ => Channel::Error,
        }
    }
}

impl ReportOf<EntryText> {
    /// The line that the report prints.
    pub open spec fn wording(self) -> Seq<char> {
        match self {
            ReportOf::HelpLine { command } => command.title() + " ("@ + command.keyword() + ") : "@
                + command.summary(),
            ReportOf::NothingToList => "Nothing to list"@,
            ReportOf::LookupFailed => "Failed to get index of entry!"@,
            ReportOf::Listed { place, entry } => decimal(place as nat) + " - "@ + entry.name + ": "@
                + entry.description,
            ReportOf::EntryMissing =>
                "command_state.name and command_state.description are required to be Some for Command::Add"@,
            ReportOf::Removed { entry } => "Removed entry "@ + entry.name,
            ReportOf::NoEntryAt { index } => "No todo entry found at index "@ + decimal(
                index as nat,
            ),
            ReportOf::IndexMissing =>
                "command_state.index is required to be Some for Command::Remove"@,
            ReportOf::NothingToClear => "Nothing to clear"@,
            ReportOf::Cleared { count } => decimal(count as nat) + " "@ + entries_word(count)
                + " cleared"@,
            ReportOf::NothingToSave => "Nothing to save"@,
            ReportOf::NotSerialized => "Failed to save state to a file!"@,
            ReportOf::NotWritten => "Failed to write state data to file!"@,
            ReportOf::Saved => "Saved state data to state.ron"@,
            ReportOf::NoSaveFile => "No state data file found at that location"@,
            ReportOf::NotRead => "Failed to read state data from file. Are you sure it exists?"@,
            ReportOf::NotParsed => "Failed to parse state data from file!"@,
            ReportOf::OlderVersion =>
                "This save file has an old manifest version, and may not load correctly"@,
            ReportOf::NewerVersion =>
                "This save file has been created with a newer version, and may not load correctly"@,
            ReportOf::UnclearAnswer => "Unknown input"@,
            ReportOf::LoadRefused =>
                "Due to one or more previous errors, a state file will not be created"@,
            ReportOf::Loaded { count } => "Loaded "@ + decimal(count as nat)
                + " entries from state file"@,
            ReportOf::UnknownCommand => "Unknown command"@,
            ReportOf::NotAnIndex => "No entry found at that index"@,
        }
    }
}

impl ReportOf<TodoEntry> {
    /// The line that the report prints.
    pub fn text(&self) -> (text: String)
        ensures
            text@ == self@.wording(),
    {
        match self {
            ReportOf::HelpLine { command } => {
                let mut text = String::from_str(command.name());
                text.append(" (");
                if *command != Command::Unknown {
                    text.append(command.key());
                }
                text.append(") : ");
                if *command != Command::Unknown {
                    text.append(command.description());
                }
                text
            },
            ReportOf::NothingToList => String::from_str("Nothing to list"),
            ReportOf::LookupFailed => String::from_str("Failed to get index of entry!"),
            ReportOf::Listed { place, entry } => {
                let mut text = decimal_text(*place);
                text.append(" - ");
                text.append(entry.name.as_str());
                text.append(": ");
                text.append(entry.description.as_str());
                text
            },
            ReportOf::EntryMissing => String::from_str(
                "command_state.name and command_state.description are required to be Some for Command::Add",
            ),
            ReportOf::Removed { entry } => {
                let mut text = String::from_str("Removed entry ");
                text.append(entry.name.as_str());
                text
            },
            ReportOf::NoEntryAt { index } => {
                let mut text = String::from_str("No todo entry found at index ");
                text.append(decimal_text(*index).as_str());
                text
            },
            ReportOf::IndexMissing => String::from_str(
                "command_state.index is required to be Some for Command::Remove",
            ),
            ReportOf::NothingToClear => String::from_str("Nothing to clear"),
            ReportOf::Cleared { count } => {
                let mut text = decimal_text(*count);
                text.append(" ");
                if *count > 1 {
                    text.append("entries");
                } else {
                    text.append("entry");
                }
                text.append(" cleared");
                text
            },
            ReportOf::NothingToSave => String::from_str("Nothing to save"),
            ReportOf::NotSerialized => String::from_str("Failed to save state to a file!"),
            ReportOf::NotWritten => String::from_str("Failed to write state data to file!"),
            ReportOf::Saved => String::from_str("Saved state data to state.ron"),
            ReportOf::NoSaveFile => String::from_str("No state data file found at that location"),
            ReportOf::NotRead => String::from_str(
                "Failed to read state data from file. Are you sure it exists?",
            ),
            ReportOf::NotParsed => String::from_str("Failed to parse state data from file!"),
            ReportOf::OlderVersion => String::from_str(
                "This save file has an old manifest version, and may not load correctly",
            ),
            ReportOf::NewerVersion => String::from_str(
                "This save file has been created with a newer version, and may not load correctly",
            ),
            ReportOf::UnclearAnswer => String::from_str("Unknown input"),
            ReportOf::LoadRefused => String::from_str(
                "Due to one or more previous errors, a state file will not be created",
            ),
            ReportOf::Loaded { count } => {
                let mut text = String::from_str("Loaded ");
                text.append(decimal_text(*count).as_str());
                text.append(" entries from state file");
                text
            },
            ReportOf::UnknownCommand => String::from_str("Unknown command"),
            ReportOf::NotAnIndex => String::from_str("No entry found at that index"),
        }
    }
}

/// A question put to the user before a line is read.
#[derive(Clone, Copy, Debug, PartialEq, Eq, Structural)]
pub enum Prompt {
    Command,
    EntryName,
    EntryDescription,
    RemoveIndex,
    OverrideEntries,
    QuitUnsaved,
}

impl Prompt {
    /// The line that asks the question.
    pub open spec fn wording(self) -> Seq<char> {
        match self {
            Prompt::Command => "Enter a command:"@,
            Prompt::EntryName => "Name of todo entry:"@,
            Prompt::EntryDescription => "Description of todo entry:"@,
            Prompt::RemoveIndex => "Index of entry to remove:"@,
            Prompt::OverrideEntries => "Override current entries? (y/n)"@,
            Prompt::QuitUnsaved =>
                "A save file exists, but you have unsaved data. Are you sure you want to quit? (y/n)"@,
        }
    }

    /// The line that asks the question.
    pub fn text(&self) -> (text: &'static str)
        ensures
            text@ == self.wording(),
    {
        match self {
            Prompt::Command => "Enter a command:",
            Prompt::EntryName => "Name of todo entry:",
            Prompt::EntryDescription => "Description of todo entry:",
            Prompt::RemoveIndex => "Index of entry to remove:",
            Prompt::OverrideEntries => "Override current entries? (y/n)",
            Prompt::QuitUnsaved =>
                "A save file exists, but you have unsaved data. Are you sure you want to quit? (y/n)",
        }
    }
}

} // verus!
