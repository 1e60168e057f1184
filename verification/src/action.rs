//! What a command hands to its caller, and what the caller hands back.
//!
//! A command that needs the save file or an answer from the user stops with
//! an [`Action`]. The caller does what the action says and hands the result
//! to the function that the action names, which goes on with the command.

use crate::entry::{texts, EntryText, TodoEntry};
use crate::report::Report;
use crate::state::{State, StateView};
use vstd::prelude::*;

verus! {

/// What an [`Action`] asks for.
pub enum ActionView {
    Done,
    Serialize { snapshot: StateView },
    Write { data: Seq<char> },
    ReadToLoad,
    ReadToExit,
    AskOverride { candidate: Seq<EntryText>, blocked: bool },
    AskQuit,
}

/// What the caller does next.
#[derive(Debug, PartialEq, Eq)]
pub enum Action {
    /// Nothing: the command is done.
    Done,
    /// Put `snapshot` into the text of a save file, and hand the text to
    /// [`State::write_text`], or `None` if that failed.
    Serialize { snapshot: State },
    /// Write `data` to the save file, and hand what came of it to
    /// [`WriteResult::reports`].
    Write { data: String },
    /// Look for the save file, read it, and hand it to [`State::load`].
    ReadToLoad,
    /// Look for the save file, read it, and hand it to [`State::leave`].
    ReadToExit,
    /// Ask whether the entries of the save file shall replace the list, and
    /// hand the answer to [`State::answer_override`] with `candidate` and
    /// `blocked`.
    AskOverride { candidate: Vec<TodoEntry>, blocked: bool },
    /// Ask whether to quit with unsaved entries, and hand the answer to
    /// [`State::answer_quit`].
    AskQuit,
}

impl View for Action {
    type V = ActionView;

    open spec fn view(&self) -> ActionView {
        match *self {
            Action::Done => ActionView::Done,
            Action::Serialize { snapshot } => ActionView::Serialize { snapshot: snapshot@ },
            Action::Write { data } => ActionView::Write { data: data@ },
            Action::ReadToLoad => ActionView::ReadToLoad,
            Action::ReadToExit => ActionView::ReadToExit,
            Action::AskOverride { candidate, blocked } => ActionView::AskOverride {
                candidate: texts(candidate@),
                blocked,
            },
            Action::AskQuit => ActionView::AskQuit,
        }
    }
}

/// What a step of a command leaves behind: its reports and what is to be
/// done next.
#[derive(Debug, PartialEq, Eq)]
pub struct Outcome {
    pub reports: Vec<Report>,
    pub next: Action,
}

/// What became of an attempt to write the save file.
#[derive(Clone, Copy, Debug, PartialEq, Eq, Structural)]
pub struct WriteResult {
    /// The data was written.
    pub written: bool,
    /// The save file exists now.
    pub exists: bool,
}

/// What a [`SaveFile`] holds.
pub enum SaveFileView {
    Missing,
    Unreadable,
    Malformed,
    Holds(StateView),
}

/// The save file as the caller found it.
#[derive(Debug, PartialEq, Eq)]
pub enum SaveFile {
    /// There is none.
    Missing,
    /// There is one, and it could not be read.
    Unreadable,
    /// It was read, and its text holds no state.
    Malformed,
    /// It was read, and its text holds this state.
    Holds(State),
}

impl View for SaveFile {
    type V = SaveFileView;

    open spec fn view(&self) -> SaveFileView {
        match *self {
            SaveFile::Missing => SaveFileView::Missing,
            SaveFile::Unreadable => SaveFileView::Unreadable,
            SaveFile::Malformed => SaveFileView::Malformed,
            SaveFile::Holds(state) => SaveFileView::Holds(state@),
        }
    }
}

/// The name of the save file, in the working directory.
pub fn save_file_name() -> (name: &'static str)
    ensures
        name@ == "state.ron"@,
{
    "state.ron"
}

} // verus!
