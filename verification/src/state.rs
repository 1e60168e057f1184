//! The list and what a command is given besides its name.

use crate::entry::{texts, EntryText, TodoEntry};
use vstd::prelude::*;

verus! {

/// The version that this library writes into every saved list.
pub const STATE_MANIFEST_VERSION: usize = 1;

/// What a [`State`] holds.
pub struct StateView {
    pub entries: Seq<EntryText>,
    pub exit: bool,
    pub manifest_version: usize,
}

/// The list, in the order in which its entries were added, with the flag
/// that ends the session and the version of the saved form.
#[derive(Debug, PartialEq, Eq)]
pub struct State {
    pub entries: Vec<TodoEntry>,
    pub exit: bool,
    pub manifest_version: usize,
}

impl View for State {
    type V = StateView;

    open spec fn view(&self) -> StateView {
        StateView {
            entries: texts(self.entries@),
            exit: self.exit,
            manifest_version: self.manifest_version,
        }
    }
}

/// The state at the start: no entries, not leaving, this library's version.
pub open spec fn initial_state() -> StateView {
    StateView { entries: Seq::empty(), exit: false, manifest_version: STATE_MANIFEST_VERSION }
}

/// A copy of `entries`.
pub fn copy_entries(entries: &Vec<TodoEntry>) -> (copy: Vec<TodoEntry>)
    ensures
        texts(copy@) == texts(entries@),
{
    let mut copy: Vec<TodoEntry> = Vec::new();
    let mut i: usize = 0;
    while i < entries.len()
        invariant
            i <= entries.len(),
            texts(copy@) == texts(entries@.take(i as int)),
        decreases entries.len() - i,
    {
        let entry = entries[i].clone();
        let ghost before = texts(copy@);
        copy.push(entry);
        assert(texts(entries@.take(i + 1)) =~= before.push(entry@));
        i += 1;
    }
    copy
}

/// Whether two lists hold the same entries in the same order.
pub fn same_entries(a: &Vec<TodoEntry>, b: &Vec<TodoEntry>) -> (same: bool)
    ensures
        same == (texts(a@) == texts(b@)),
{
    if a.len() != b.len() {
        assert(texts(a@).len() != texts(b@).len());
        return false;
    }
    let mut i: usize = 0;
    while i < a.len()
        invariant
            i <= a.len(),
            a.len() == b.len(),
            forall|j: int| 0 <= j < i ==> texts(a@)[j] == texts(b@)[j],
        decreases a.len() - i,
    {
        if a[i] != b[i] {
            assert(texts(a@)[i as int] != texts(b@)[i as int]);
            return false;
        }
        i += 1;
    }
    assert(texts(a@) =~= texts(b@));
    true
}

impl State {
    /// The state at the start.
    pub fn new() -> (state: Self)
        ensures
            state@ == initial_state(),
    {
        let state = State {
            entries: Vec::<TodoEntry>::new(),
            exit: false,
            manifest_version: STATE_MANIFEST_VERSION,
        };
        assert(state@.entries =~= Seq::empty());
        state
    }
}

impl Clone for State {
    fn clone(&self) -> (copy: Self)
        ensures
            copy@ == self@,
    {
        State {
            entries: copy_entries(&self.entries),
            exit: self.exit,
            manifest_version: self.manifest_version,
        }
    }
}

/// What a [`CommandState`] holds.
pub struct CommandStateView {
    pub index: Option<usize>,
    pub name: Option<Seq<char>>,
    pub description: Option<Seq<char>>,
}

/// What a command is given besides its name: the text of a new entry for
/// `Add`, the place of an entry for `Remove`.
#[derive(Debug, PartialEq, Eq)]
pub struct CommandState {
    pub index: Option<usize>,
    pub name: Option<String>,
    pub description: Option<String>,
}

/// The text of `text`, if there is one.
pub open spec fn text_of(text: Option<String>) -> Option<Seq<char>> {
    match text {
        Some(t) => Some(t@),
        None => None,
    }
}

impl View for CommandState {
    type V = CommandStateView;

    open spec fn view(&self) -> CommandStateView {
        CommandStateView {
            index: self.index,
            name: text_of(self.name),
            description: text_of(self.description),
        }
    }
}

impl CommandState {
    /// Nothing, for the commands that need nothing.
    pub fn empty() -> (given: Self)
        ensures
            given@ == (CommandStateView { index: None, name: None, description: None }),
    {
        CommandState { name: None, description: None, index: None }
    }

    /// The text of the entry to add.
    pub fn add(name: String, description: String) -> (given: Self)
        ensures
            given@ == (CommandStateView {
                index: None,
                name: Some(name@),
                description: Some(description@),
            }),
    {
        CommandState { name: Some(name), description: Some(description), index: None }
    }

    /// The place of the entry to remove.
    pub fn remove(index: usize) -> (given: Self)
        ensures
            given@ == (CommandStateView { index: Some(index), name: None, description: None }),
    {
        CommandState { name: None, description: None, index: Some(index) }
    }
}

} // verus!
