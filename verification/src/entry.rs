//! Todo entries and the order in which they sort.

use crate::encoding::text_less;
use crate::text::{
    lemma_text_before_irreflexive, lemma_text_before_total, lemma_text_before_transitive,
    text_before,
};
use std::cmp::Ordering;
use vstd::prelude::*;

verus! {

/// The text of an entry.
pub struct EntryText {
    pub name: Seq<char>,
    pub description: Seq<char>,
}

/// A named todo item with a free-text description.
///
/// Entries are ordered by name, and entries of the same name by description.
/// `==` and `<` are stated and proved here. `cmp` is derived: it compares the
/// same fields in the same order, and verified code does not call it.
#[derive(Debug, Eq, Ord)]
pub struct TodoEntry {
    pub name: String,
    pub description: String,
}

impl View for TodoEntry {
    type V = EntryText;

    open spec fn view(&self) -> EntryText {
        EntryText { name: self.name@, description: self.description@ }
    }
}

/// The entry `a` sorts strictly before the entry `b`.
pub open spec fn entry_before(a: EntryText, b: EntryText) -> bool {
    ||| text_before(a.name, b.name)
    ||| a.name == b.name && text_before(a.description, b.description)
}

/// The texts of a sequence of entries.
pub open spec fn texts(entries: Seq<TodoEntry>) -> Seq<EntryText> {
    entries.map_values(|e: TodoEntry| e@)
}

/// No entry sorts before itself.
pub proof fn lemma_entry_before_irreflexive(a: EntryText)
    ensures
        !entry_before(a, a),
{
    lemma_text_before_irreflexive(a.name);
    lemma_text_before_irreflexive(a.description);
}

/// The order of entries is transitive.
pub proof fn lemma_entry_before_transitive(a: EntryText, b: EntryText, c: EntryText)
    requires
        entry_before(a, b),
        entry_before(b, c),
    ensures
        entry_before(a, c),
{
    if text_before(a.name, b.name) && text_before(b.name, c.name) {
        lemma_text_before_transitive(a.name, b.name, c.name);
    } else if a.name == b.name && b.name == c.name {
        lemma_text_before_transitive(a.description, b.description, c.description);
    }
}

/// Two entries never sort before each other.
pub proof fn lemma_entry_before_asymmetric(a: EntryText, b: EntryText)
    requires
        entry_before(a, b),
    ensures
        !entry_before(b, a),
{
    if entry_before(b, a) {
        lemma_entry_before_transitive(a, b, a);
        lemma_entry_before_irreflexive(a);
    }
}

/// Of two entries with different texts one sorts before the other.
pub proof fn lemma_entry_before_total(a: EntryText, b: EntryText)
    ensures
        a == b || entry_before(a, b) || entry_before(b, a),
{
    lemma_text_before_total(a.name, b.name);
    lemma_text_before_total(a.description, b.description);
}

impl TodoEntry {
    /// An entry with this name and this description.
    pub fn new(name: String, description: String) -> (entry: Self)
        ensures
            entry@ == (EntryText { name: name@, description: description@ }),
    {
        TodoEntry { name, description }
    }

    /// Whether this entry sorts strictly before `other`.
    pub fn precedes(&self, other: &TodoEntry) -> (before: bool)
        ensures
            before == entry_before(self@, other@),
    {
        if text_less(self.name.as_str(), other.name.as_str()) {
            true
        } else if self.name == other.name {
            text_less(self.description.as_str(), other.description.as_str())
        } else {
            false
        }
    }
}

impl Clone for TodoEntry {
    fn clone(&self) -> (copy: Self)
        ensures
            copy@ == self@,
    {
        TodoEntry { name: self.name.clone(), description: self.description.clone() }
    }
}

impl PartialEq for TodoEntry {
    fn eq(&self, other: &Self) -> (equal: bool) {
        self.name == other.name && self.description == other.description
    }
}

impl vstd::std_specs::cmp::PartialEqSpecImpl for TodoEntry {
    open spec fn obeys_eq_spec() -> bool {
        true
    }

    open spec fn eq_spec(&self, other: &Self) -> bool {
        self@ == other@
    }
}

impl PartialOrd for TodoEntry {
    fn partial_cmp(&self, other: &Self) -> (order: Option<Ordering>) {
        if self.precedes(other) {
            Some(Ordering::Less)
        } else if other.precedes(self) {
            Some(Ordering::Greater)
        } else {
            Some(Ordering::Equal)
        }
    }
}

impl vstd::std_specs::cmp::PartialOrdSpecImpl for TodoEntry {
    open spec fn obeys_partial_cmp_spec() -> bool {
        true
    }

    open spec fn partial_cmp_spec(&self, other: &Self) -> Option<Ordering> {
        if entry_before(self@, other@) {
            Some(Ordering::Less)
        } else if entry_before(other@, self@) {
            Some(Ordering::Greater)
        } else {
            Some(Ordering::Equal)
        }
    }
}

} // verus!
