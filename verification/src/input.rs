//! What the user types for a command before it is executed.

use crate::command::Command;
use crate::number::{index_written, parse_index};
use crate::report::{said, Prompt, Report, ReportOf, ReportView};
use crate::state::{CommandState, CommandStateView};
use vstd::prelude::*;

verus! {

/// What is given to `Remove` for the text that the user typed as the index:
/// the index that it writes, or one that no list reaches, with a report.
pub open spec fn typed_index(text: Seq<char>) -> (CommandStateView, Seq<ReportView>) {
    match index_written(text) {
        Some(index) => (
            CommandStateView { index: Some(index), name: None, description: None },
            seq![],
        ),
        None => (
            CommandStateView { index: Some(usize::MAX), name: None, description: None },
            seq![ReportOf::NotAnIndex],
        ),
    }
}

/// What is asked of the user before `command` is executed: the text of the
/// new entry for `Add`, the index for `Remove`.
pub open spec fn questions_of(command: Command) -> Seq<Prompt> {
    match command {
        Command::Add => seq![Prompt::EntryName, Prompt::EntryDescription],
        Command::Remove => seq![Prompt::RemoveIndex],
        _ => seq![],
    }
}

/// What `command` is given when the user typed `answers` to its questions.
/// Answers that are missing leave their fields empty.
pub open spec fn gathered(command: Command, answers: Seq<Seq<char>>) -> (
    CommandStateView,
    Seq<ReportView>,
) {
    let nothing = CommandStateView { index: None, name: None, description: None };
    match command {
        Command::Add => if answers.len() >= 2 {
            (
                CommandStateView {
                    index: None,
                    name: Some(answers[0]),
                    description: Some(answers[1]),
                },
                seq![],
            )
        } else {
            (nothing, seq![])
        },
        Command::Remove => if answers.len() >= 1 {
            typed_index(answers[0])
        } else {
            (nothing, seq![])
        },
        _ => (nothing, seq![]),
    }
}

/// The texts of `lines`.
pub open spec fn lines_of(lines: Seq<String>) -> Seq<Seq<char>> {
    lines.map_values(|line: String| line@)
}

impl Command {
    /// What is asked of the user before the command is executed.
    pub fn questions(&self) -> (questions: Vec<Prompt>)
        ensures
            questions@ == questions_of(*self),
    {
        let mut questions: Vec<Prompt> = Vec::new();
        match self {
            Command::Add => {
                questions.push(Prompt::EntryName);
                questions.push(Prompt::EntryDescription);
            },
            Command::Remove => {
                questions.push(Prompt::RemoveIndex);
            },
            _ => {},
        }
        questions
    }
}

impl CommandState {
    /// What is given to `Remove` for the text that the user typed as the
    /// index.
    pub fn remove_typed(text: &str) -> (typed: (CommandState, Vec<Report>))
        ensures
            (typed.0@, said(typed.1@)) == typed_index(text@),
    {
        let mut reports: Vec<Report> = Vec::new();
        let index = match parse_index(text) {
            Some(index) => index,
            None => {
                reports.push(ReportOf::NotAnIndex);
                usize::MAX
            },
        };
        (CommandState::remove(index), reports)
    }

    /// What `command` is given when the user typed `answers` to its
    /// questions, with what there is to report of the answers.
    pub fn gather(command: Command, answers: Vec<String>) -> (typed: (CommandState, Vec<Report>))
        ensures
            (typed.0@, said(typed.1@)) == gathered(command, lines_of(answers@)),
    {
        let mut answers = answers;
        match command {
            Command::Add => {
                if answers.len() >= 2 {
                    answers.truncate(2);
                    let description = answers.pop();
                    let name = answers.pop();
                    (
                        CommandState { index: None, name, description },
                        CommandState::nothing_to_report(),
                    )
                } else {
                    (CommandState::empty(), CommandState::nothing_to_report())
                }
            },
            Command::Remove => {
                if answers.len() >= 1 {
                    CommandState::remove_typed(answers[0].as_str())
                } else {
                    (CommandState::empty(), CommandState::nothing_to_report())
                }
            },
            _ => (CommandState::empty(), CommandState::nothing_to_report()),
        }
    }

    fn nothing_to_report() -> (reports: Vec<Report>)
        ensures
            said(reports@) == Seq::<ReportView>::empty(),
    {
        Vec::new()
    }
}

} // verus!
