//! Executing commands.

use crate::action::{Action, Outcome, SaveFile, WriteResult};
use crate::answer::{answer_given, Answer};
use crate::command::{named_commands, Command};
use crate::entry::{texts, TodoEntry};
use crate::rank::{
    lemma_rank_of_member, lemma_sorted_position_rearranged, search_sorted, sorted, sorted_copy,
};
use crate::report::{said, Report, ReportOf};
use crate::state::{same_entries, text_of, CommandState, State};
use crate::step::{
    end_of_load, file_reports, help_reports, leave_step, list_reports, listed, load_step,
    override_step, quit_step, reached, run, write_reports, write_step,
};
use vstd::prelude::*;

verus! {

/// An outcome with one report, or none.
fn outcome(report: Option<Report>, next: Action) -> (outcome: Outcome)
    ensures
        outcome.next == next,
        said(outcome.reports@) == match report {
            Some(r) => seq![r@],
            None => seq![],
        },
{
    let mut reports: Vec<Report> = Vec::new();
    if let Some(r) = report {
        reports.push(r);
    }
    assert(said(reports@) =~= match report {
        Some(r) => seq![r@],
        None => seq![],
    });
    Outcome { reports, next }
}

/// The lines of help.
pub fn help() -> (reports: Vec<Report>)
    ensures
        said(reports@) == help_reports(),
{
    let commands = Command::named();
    let mut reports: Vec<Report> = Vec::new();
    let mut i: usize = 0;
    while i < commands.len()
        invariant
            commands@ == named_commands(),
            i <= commands.len(),
            reports.len() == i,
            forall|j: int| 0 <= j < i ==> (#[trigger] reports@[j])@ == help_reports()[j],
        decreases commands.len() - i,
    {
        reports.push(ReportOf::HelpLine { command: commands[i] });
        i += 1;
    }
    reports
}

/// The lines of the list.
pub fn list(entries: &Vec<TodoEntry>) -> (reports: Vec<Report>)
    ensures
        said(reports@) == list_reports(texts(entries@)),
{
    let mut reports: Vec<Report> = Vec::new();
    if entries.is_empty() {
        reports.push(ReportOf::NothingToList);
        return reports;
    }
    let ghost all = texts(entries@);
    let in_order = sorted_copy(entries);
    let mut i: usize = 0;
    while i < entries.len()
        invariant
            all == texts(entries@),
            sorted(texts(in_order@)),
            texts(in_order@).to_multiset() == all.to_multiset(),
            i <= entries.len(),
            reports.len() == i,
            forall|j: int| 0 <= j < i ==> (#[trigger] reports@[j])@ == listed(all, j),
        decreases entries.len() - i,
    {
        let entry = entries[i].clone();
        proof {
            assert(all[i as int] == entry@);
            lemma_sorted_position_rearranged(texts(in_order@), all, entry@);
            lemma_rank_of_member(all, entry@);
        }
        match search_sorted(&in_order, &entry) {
            Some(place) => {
                reports.push(ReportOf::Listed { place, entry });
            },
            None => {
                // Not taken: every entry of the list is found in its sorted order.
                reports.push(ReportOf::LookupFailed);
                reports.push(ReportOf::Listed { place: usize::MAX, entry });
            },
        }
        i += 1;
    }
    reports
}

impl WriteResult {
    /// What is reported once the save file was written, or not.
    pub fn reports(&self) -> (reports: Vec<Report>)
        ensures
            said(reports@) == write_reports(*self),
    {
        let mut reports: Vec<Report> = Vec::new();
        if !self.written {
            reports.push(ReportOf::NotWritten);
        }
        if self.exists {
            reports.push(ReportOf::Saved);
        }
        reports
    }
}

impl State {
    /// Goes on with `Save`, with the text of the save file, if the caller
    /// has one.
    pub fn write_text(&self, text: Option<String>) -> (outcome: Outcome)
        ensures
            reached(*self, outcome) == write_step(self@, text_of(text)),
    {
        match text {
            Some(data) => outcome(None, Action::Write { data }),
            None => outcome(Some(ReportOf::NotSerialized), Action::Write { data: String::new() }),
        }
    }

    /// The end of `Load`.
    fn finish_load(&mut self, candidate: Vec<TodoEntry>, blocked: bool) -> (outcome: Outcome)
        ensures
            reached(*final(self), outcome) == end_of_load(old(self)@, texts(candidate@), blocked),
    {
        if blocked {
            outcome(Some(ReportOf::LoadRefused), Action::Done)
        } else {
            self.entries = candidate;
            outcome(Some(ReportOf::Loaded { count: self.entries.len() }), Action::Done)
        }
    }

    /// Goes on with `Load`, with the save file as the caller found it.
    pub fn load(&mut self, file: SaveFile) -> (outcome: Outcome)
        ensures
            reached(*final(self), outcome) == load_step(old(self)@, file@),
    {
        let mut reports: Vec<Report> = Vec::new();
        let (candidate, blocked) = match file {
            SaveFile::Missing => {
                return outcome(Some(ReportOf::NoSaveFile), Action::Done);
            },
            SaveFile::Unreadable => {
                reports.push(ReportOf::NotRead);
                reports.push(ReportOf::NotParsed);
                (State::new(), true)
            },
            SaveFile::Malformed => {
                reports.push(ReportOf::NotParsed);
                (State::new(), true)
            },
            SaveFile::Holds(state) => (state, false),
        };
        if candidate.manifest_version < self.manifest_version {
            reports.push(ReportOf::OlderVersion);
        } else if candidate.manifest_version > self.manifest_version {
            reports.push(ReportOf::NewerVersion);
        }
        assert(said(reports@) =~= file_reports(self@, file@));
        if !same_entries(&candidate.entries, &self.entries) && !self.entries.is_empty() {
            Outcome { reports, next: Action::AskOverride { candidate: candidate.entries, blocked } }
        } else {
            let ghost before = said(reports@);
            let mut end = self.finish_load(candidate.entries, blocked);
            let ghost end_reports = said(end.reports@);
            reports.append(&mut end.reports);
            assert(said(reports@) =~= before + end_reports);
            Outcome { reports, next: end.next }
        }
    }

    /// Goes on with `Load`, with the line that the user typed when asked
    /// whether `candidate` shall replace the list.
    pub fn answer_override(
        &mut self,
        candidate: Vec<TodoEntry>,
        blocked: bool,
        line: &str,
    ) -> (outcome: Outcome)
        ensures
            reached(*final(self), outcome) == override_step(
                old(self)@,
                texts(candidate@),
                blocked,
                answer_given(line@),
            ),
    {
        match Answer::parse(line) {
            Answer::Yes => self.finish_load(candidate, blocked),
            Answer::No => outcome(None, Action::Done),
            Answer::Unclear => outcome(
                Some(ReportOf::UnclearAnswer),
                Action::AskOverride { candidate, blocked },
            ),
        }
    }

    /// Goes on with `Exit`, with the save file as the caller found it.
    pub fn leave(&mut self, file: SaveFile) -> (outcome: Outcome)
        ensures
            reached(*final(self), outcome) == leave_step(old(self)@, file@),
    {
        let saved = match file {
            SaveFile::Missing => {
                self.exit = true;
                return outcome(None, Action::Done);
            },
            SaveFile::Unreadable | SaveFile::Malformed => State::new(),
            SaveFile::Holds(state) => state,
        };
        if !same_entries(&self.entries, &saved.entries) {
            outcome(None, Action::AskQuit)
        } else {
            self.exit = true;
            outcome(None, Action::Done)
        }
    }

    /// Goes on with `Exit`, with the line that the user typed when asked
    /// whether to quit.
    pub fn answer_quit(&mut self, line: &str) -> (outcome: Outcome)
        ensures
            reached(*final(self), outcome) == quit_step(old(self)@, answer_given(line@)),
    {
        match Answer::parse(line) {
            Answer::Yes => {
                self.exit = true;
                outcome(None, Action::Done)
            },
            Answer::No => outcome(None, Action::Done),
            Answer::Unclear => outcome(Some(ReportOf::UnclearAnswer), Action::AskQuit),
        }
    }
}

impl Command {
    /// Executes the command on `state`, with what `command_state` gives it.
    pub fn execute(self, state: &mut State, command_state: CommandState) -> (outcome: Outcome)
        ensures
            reached(*final(state), outcome) == run(self, old(state)@, command_state@),
    {
        match self {
            Command::Help => Outcome { reports: help(), next: Action::Done },
            Command::List => Outcome { reports: list(&state.entries), next: Action::Done },
            Command::Add => {
                match (command_state.name, command_state.description) {
                    (Some(name), Some(description)) => {
                        let ghost before = texts(state.entries@);
                        let entry = TodoEntry::new(name, description);
                        state.entries.push(entry);
                        assert(texts(state.entries@) =~= before.push(entry@));
                        outcome(None, Action::Done)
                    },
                    _ => outcome(Some(ReportOf::EntryMissing), Action::Done),
                }
            },
            Command::Remove => {
                match command_state.index {
                    Some(index) => {
                        if index < state.entries.len() {
                            let ghost before = texts(state.entries@);
                            let entry = state.entries.remove(index);
                            assert(texts(state.entries@) =~= before.remove(index as int));
                            outcome(Some(ReportOf::Removed { entry }), Action::Done)
                        } else {
                            outcome(Some(ReportOf::NoEntryAt { index }), Action::Done)
                        }
                    },
                    None => outcome(Some(ReportOf::IndexMissing), Action::Done),
                }
            },
            Command::Clear => {
                if state.entries.is_empty() {
                    outcome(Some(ReportOf::NothingToClear), Action::Done)
                } else {
                    let count = state.entries.len();
                    state.entries.clear();
                    assert(texts(state.entries@) =~= Seq::empty());
                    outcome(Some(ReportOf::Cleared { count }), Action::Done)
                }
            },
            Command::Save => {
                if state.entries.is_empty() {
                    outcome(Some(ReportOf::NothingToSave), Action::Done)
                } else {
                    outcome(None, Action::Serialize { snapshot: state.clone() })
                }
            },
            Command::Load => outcome(None, Action::ReadToLoad),
            Command::Exit => outcome(None, Action::ReadToExit),
            Command::Unknown => outcome(Some(ReportOf::UnknownCommand), Action::Done),
        }
    }
}

} // verus!
