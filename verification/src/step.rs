//! What the commands do, step by step, to the state as it is in the abstract.
//!
//! A step takes the state to the next state, makes reports, and says what is
//! to be done next. `Load` and `Exit` take more than one step: one to ask for
//! the save file, one with the save file, and one for each answer of the
//! user.

use crate::action::{ActionView, Outcome, SaveFileView, WriteResult};
use crate::answer::Answer;
use crate::command::{named_commands, Command};
use crate::entry::EntryText;
use crate::rank::rank;
use crate::report::{said, ReportOf, ReportView};
use crate::state::{initial_state, CommandStateView, State, StateView};
use vstd::prelude::*;

verus! {

/// A step of a command: the state after it, its reports, and what is to be
/// done next.
pub struct Step {
    pub state: StateView,
    pub reports: Seq<ReportView>,
    pub next: ActionView,
}

/// The step that ended in `state` with `outcome`.
pub open spec fn reached(state: State, outcome: Outcome) -> Step {
    Step { state: state@, reports: said(outcome.reports@), next: outcome.next@ }
}

/// A step that ends the command.
pub open spec fn done(state: StateView, reports: Seq<ReportView>) -> Step {
    Step { state, reports, next: ActionView::Done }
}

/// The lines of help: one for each command that can be named.
pub open spec fn help_reports() -> Seq<ReportView> {
    Seq::new(named_commands().len(), |i: int| ReportOf::HelpLine { command: named_commands()[i] })
}

/// The line that lists entry `i`: the entry with its place in the sorted
/// order of the list, which is the number of entries that sort before it.
/// That is its place in the list only where the list is sorted.
pub open spec fn listed(entries: Seq<EntryText>, i: int) -> ReportView {
    ReportOf::Listed { place: rank(entries, entries[i]) as usize, entry: entries[i] }
}

/// What `List` reports: a line for each entry, in the order of the list.
pub open spec fn list_reports(entries: Seq<EntryText>) -> Seq<ReportView> {
    if entries.len() == 0 {
        seq![ReportOf::NothingToList]
    } else {
        Seq::new(entries.len(), |i: int| listed(entries, i))
    }
}

/// `state` with `entries` for its entries.
pub open spec fn with_entries(state: StateView, entries: Seq<EntryText>) -> StateView {
    StateView { entries, ..state }
}

/// `state` with the flag that ends the session set.
pub open spec fn leaving(state: StateView) -> StateView {
    StateView { exit: true, ..state }
}

/// What `Add` does: it appends the entry that it was given.
pub open spec fn add_step(state: StateView, given: CommandStateView) -> Step {
    match (given.name, given.description) {
        (Some(name), Some(description)) => done(
            with_entries(state, state.entries.push(EntryText { name, description })),
            seq![],
        ),
        _ => done(state, seq![ReportOf::EntryMissing]),
    }
}

/// What `Remove` does: it takes out the entry at the index that it was
/// given, if there is one.
pub open spec fn remove_step(state: StateView, given: CommandStateView) -> Step {
    match given.index {
        Some(index) => if index < state.entries.len() {
            done(
                with_entries(state, state.entries.remove(index as int)),
                seq![ReportOf::Removed { entry: state.entries[index as int] }],
            )
        } else {
            done(state, seq![ReportOf::NoEntryAt { index }])
        },
        None => done(state, seq![ReportOf::IndexMissing]),
    }
}

/// What `Clear` does: it empties the list and reports how many entries
/// there were.
pub open spec fn clear_step(state: StateView) -> Step {
    if state.entries.len() == 0 {
        done(state, seq![ReportOf::NothingToClear])
    } else {
        done(
            with_entries(state, Seq::empty()),
            seq![ReportOf::Cleared { count: state.entries.len() as usize }],
        )
    }
}

/// What `Save` does: nothing is written for an empty list.
pub open spec fn save_step(state: StateView) -> Step {
    if state.entries.len() == 0 {
        done(state, seq![ReportOf::NothingToSave])
    } else {
        Step { state, reports: seq![], next: ActionView::Serialize { snapshot: state } }
    }
}

/// What executing `command` does to `state`.
pub open spec fn run(command: Command, state: StateView, given: CommandStateView) -> Step {
    match command {
        Command::Help => done(state, help_reports()),
        Command::List => done(state, list_reports(state.entries)),
        Command::Add => add_step(state, given),
        Command::Remove => remove_step(state, given),
        Command::Clear => clear_step(state),
        Command::Save => save_step(state),
        Command::Load => Step { state, reports: seq![], next: ActionView::ReadToLoad },
        Command::Exit => Step { state, reports: seq![], next: ActionView::ReadToExit },
        Command::Unknown => done(state, seq![ReportOf::UnknownCommand]),
    }
}

/// What `Save` does with the text of the save file: it has it written. Where
/// there is no text, it reports that and has an empty file written.
pub open spec fn write_step(state: StateView, text: Option<Seq<char>>) -> Step {
    match text {
        Some(data) => Step { state, reports: seq![], next: ActionView::Write { data } },
        None => Step {
            state,
            reports: seq![ReportOf::NotSerialized],
            next: ActionView::Write { data: Seq::empty() },
        },
    }
}

/// What is reported once the save file was written, or not: success only if
/// the file exists.
pub open spec fn write_reports(result: WriteResult) -> Seq<ReportView> {
    (if result.written {
        seq![]
    } else {
        seq![ReportOf::NotWritten]
    }) + (if result.exists {
        seq![ReportOf::Saved]
    } else {
        seq![]
    })
}

/// The state that a save file stands for: the one that it holds, or the
/// initial state if it holds none.
pub open spec fn candidate_state(file: SaveFileView) -> StateView {
    match file {
        SaveFileView::Holds(state) => state,
        _ => initial_state(),
    }
}

/// What is reported of a save file that was found, before its entries are
/// looked at: that it could not be read, that no state could be parsed from
/// it, and that its version is not the one of `state`.
pub open spec fn file_reports(state: StateView, file: SaveFileView) -> Seq<ReportView> {
    let version = candidate_state(file).manifest_version;
    (match file {
        SaveFileView::Unreadable => seq![ReportOf::NotRead, ReportOf::NotParsed],
        SaveFileView::Malformed => seq![ReportOf::NotParsed],
        _ => seq![],
    }) + (if version < state.manifest_version {
        seq![ReportOf::OlderVersion]
    } else if version > state.manifest_version {
        seq![ReportOf::NewerVersion]
    } else {
        seq![]
    })
}

/// The end of `Load`: the candidate replaces the list, unless the save file
/// could not be used.
pub open spec fn end_of_load(state: StateView, candidate: Seq<EntryText>, blocked: bool) -> Step {
    if blocked {
        done(state, seq![ReportOf::LoadRefused])
    } else {
        done(
            with_entries(state, candidate),
            seq![ReportOf::Loaded { count: candidate.len() as usize }],
        )
    }
}

/// What `Load` does with the save file: it asks before it replaces a list
/// that is not empty by other entries.
pub open spec fn load_step(state: StateView, file: SaveFileView) -> Step {
    if file is Missing {
        done(state, seq![ReportOf::NoSaveFile])
    } else {
        let candidate = candidate_state(file).entries;
        let blocked = !(file is Holds);
        let reports = file_reports(state, file);
        if candidate != state.entries && state.entries.len() > 0 {
            Step { state, reports, next: ActionView::AskOverride { candidate, blocked } }
        } else {
            let end = end_of_load(state, candidate, blocked);
            Step { reports: reports + end.reports, ..end }
        }
    }
}

/// What `Load` does with the answer to its question.
pub open spec fn override_step(
    state: StateView,
    candidate: Seq<EntryText>,
    blocked: bool,
    answer: Answer,
) -> Step {
    match answer {
        Answer::Yes => end_of_load(state, candidate, blocked),
        Answer::No => done(state, seq![]),
        Answer::Unclear => Step {
            state,
            reports: seq![ReportOf::UnclearAnswer],
            next: ActionView::AskOverride { candidate, blocked },
        },
    }
}

/// What `Exit` does with the save file: it asks before it leaves entries
/// behind that the save file does not hold. Of a save file that cannot be
/// used it says nothing.
pub open spec fn leave_step(state: StateView, file: SaveFileView) -> Step {
    if !(file is Missing) && state.entries != candidate_state(file).entries {
        Step { state, reports: seq![], next: ActionView::AskQuit }
    } else {
        done(leaving(state), seq![])
    }
}

/// What `Exit` does with the answer to its question.
pub open spec fn quit_step(state: StateView, answer: Answer) -> Step {
    match answer {
        Answer::Yes => done(leaving(state), seq![]),
        Answer::No => done(state, seq![]),
        Answer::Unclear => Step {
            state,
            reports: seq![ReportOf::UnclearAnswer],
            next: ActionView::AskQuit,
        },
    }
}

} // verus!
