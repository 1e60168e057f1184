//! What holds of the commands, whatever the list.

use crate::action::{ActionView, SaveFileView};
use crate::answer::{answer_given, Answer};
use crate::command::{command_named, Command};
use crate::entry::{
    entry_before, lemma_entry_before_asymmetric, lemma_entry_before_irreflexive,
    lemma_entry_before_total, EntryText,
};
use crate::number::{all_digits, decimal, digits_value, index_written, number_written};
use crate::rank::{
    lemma_rank_of_member, lemma_rank_of_split, lemma_rank_rearranged, rank, sorted,
};
use crate::report::{ReportOf, ReportView};
use crate::spelling::{lemma_spells_apart, lowercase, says, spells};
use crate::state::{CommandStateView, StateView};
use crate::step::{
    candidate_state, done, leave_step, leaving, list_reports, load_step, override_step,
    quit_step, run, with_entries, write_step, Step,
};
use vstd::prelude::*;

verus! {

/// No text spells the keywords of two commands.
proof fn lemma_keywords_apart(text: Seq<char>, a: Command, b: Command)
    requires
        a != b,
        a != Command::Unknown,
        b != Command::Unknown,
    ensures
        !(spells(text, a.keyword()) && spells(text, b.keyword())),
{
    reveal_strlit("help");
    reveal_strlit("list");
    reveal_strlit("add");
    reveal_strlit("remove");
    reveal_strlit("clear");
    reveal_strlit("save");
    reveal_strlit("load");
    reveal_strlit("exit");
    let both_start_with_l = (a == Command::List && b == Command::Load) || (a == Command::Load && b
        == Command::List);
    let k: int = if both_start_with_l {
        1
    } else {
        0
    };
    lemma_spells_apart(text, a.keyword(), b.keyword(), k);
}

/// A line names the command whose keyword it spells, and `Unknown` if it
/// spells none: no text spells the keywords of two commands.
pub proof fn law_command_named(text: Seq<char>, command: Command)
    ensures
        command != Command::Unknown ==> (command_named(text) == command <==> spells(
            text,
            command.keyword(),
        )),
        command_named(text) == Command::Unknown <==> forall|c: Command|
            c != Command::Unknown ==> !spells(text, #[trigger] c.keyword()),
{
    if command != Command::Unknown {
        if command != Command::Help {
            lemma_keywords_apart(text, command, Command::Help);
        }
        if command != Command::List {
            lemma_keywords_apart(text, command, Command::List);
        }
        if command != Command::Add {
            lemma_keywords_apart(text, command, Command::Add);
        }
        if command != Command::Remove {
            lemma_keywords_apart(text, command, Command::Remove);
        }
        if command != Command::Clear {
            lemma_keywords_apart(text, command, Command::Clear);
        }
        if command != Command::Save {
            lemma_keywords_apart(text, command, Command::Save);
        }
        if command != Command::Load {
            lemma_keywords_apart(text, command, Command::Load);
        }
        if command != Command::Exit {
            lemma_keywords_apart(text, command, Command::Exit);
        }
    }
}

/// A line that names no command changes nothing, whatever it is given, and
/// is reported as an unknown command.
pub proof fn law_unknown_command(text: Seq<char>, state: StateView, given: CommandStateView)
    requires
        command_named(text) == Command::Unknown,
    ensures
        run(command_named(text), state, given) == done(state, seq![ReportOf::UnknownCommand]),
{
}

/// A line answers yes if it says `y` or `yes`, and no if it says `n` or
/// `no`, in whatever case: no text answers both.
pub proof fn law_answers_apart(text: Seq<char>)
    ensures
        answer_given(text) == Answer::Yes <==> says(text, "y"@) || says(text, "yes"@),
        answer_given(text) == Answer::No <==> says(text, "n"@) || says(text, "no"@),
{
    reveal_strlit("y");
    reveal_strlit("yes");
    reveal_strlit("n");
    reveal_strlit("no");
    assert("y"@[0] != "n"@[0]);
    assert("yes"@[0] != "no"@[0]);
}

/// An answer does not depend on the case of its letters.
pub proof fn law_answers_ignore_case(a: Seq<char>, b: Seq<char>)
    requires
        lowercase(a) == lowercase(b),
    ensures
        answer_given(a) == answer_given(b),
{
}

/// The letters `y` and `n` answer yes and no.
pub proof fn law_short_answers()
    ensures
        answer_given("y"@) == Answer::Yes,
        answer_given("n"@) == Answer::No,
{
    reveal_strlit("y");
    reveal_strlit("n");
    assert(lowercase("y"@) =~= "y"@);
    assert(lowercase("n"@) =~= "n"@);
    law_answers_apart("y"@);
    law_answers_apart("n"@);
}

/// `List` shows every entry with the place that it has once the list is
/// sorted, not with the place that it has in the list: if the entry `i` of
/// the list stands at `k` in a sorted arrangement of the list, and no entry
/// with the same text stands before `k`, then its line says `k`.
pub proof fn law_list_shows_sorted_place(
    entries: Seq<EntryText>,
    arranged: Seq<EntryText>,
    i: int,
    k: int,
)
    requires
        entries.len() <= usize::MAX,
        arranged.to_multiset() == entries.to_multiset(),
        sorted(arranged),
        0 <= i < entries.len(),
        0 <= k < arranged.len(),
        arranged[k] == entries[i],
        forall|j: int| 0 <= j < k ==> arranged[j] != entries[i],
    ensures
        list_reports(entries).len() == entries.len(),
        list_reports(entries)[i] == (ReportOf::Listed { place: k as usize, entry: entries[i] }),
{
    let e = entries[i];
    assert forall|j: int| 0 <= j < k implies entry_before(#[trigger] arranged[j], e) by {
        lemma_entry_before_total(arranged[j], e);
    }
    assert forall|j: int| k <= j < arranged.len() implies !entry_before(
        #[trigger] arranged[j],
        e,
    ) by {
        lemma_entry_before_irreflexive(e);
    }
    lemma_rank_of_split(arranged, e, k);
    lemma_rank_rearranged(arranged, entries, e);
}

/// In a list in which every entry sorts before the later ones, and in no
/// other, `List` shows every entry with its place in the list.
pub proof fn law_list_of_sorted_list(entries: Seq<EntryText>)
    requires
        entries.len() <= usize::MAX,
    ensures
        (forall|a: int, b: int|
            0 <= a < b < entries.len() ==> entry_before(entries[a], entries[b])) <==> (forall|
            i: int,
        |
            0 <= i < entries.len() ==> #[trigger] list_reports(entries)[i] == (ReportOf::Listed {
                place: i as usize,
                entry: entries[i],
            })),
{
    if forall|a: int, b: int| 0 <= a < b < entries.len() ==> entry_before(entries[a], entries[b]) {
        assert forall|i: int| 0 <= i < entries.len() implies #[trigger] list_reports(entries)[i]
            == (ReportOf::Listed { place: i as usize, entry: entries[i] }) by {
            let e = entries[i];
            assert forall|j: int| i <= j < entries.len() implies !entry_before(
                #[trigger] entries[j],
                e,
            ) by {
                if j == i {
                    lemma_entry_before_irreflexive(e);
                } else {
                    lemma_entry_before_asymmetric(e, entries[j]);
                }
            }
            lemma_rank_of_split(entries, e, i);
        }
    }
    if forall|i: int|
        0 <= i < entries.len() ==> #[trigger] list_reports(entries)[i] == (ReportOf::Listed {
            place: i as usize,
            entry: entries[i],
        }) {
        assert forall|a: int, b: int| 0 <= a < b < entries.len() implies entry_before(
            entries[a],
            entries[b],
        ) by {
            lemma_place_counts_earlier(entries, a, b);
        }
    }
}

/// Where every entry of a list has its place in the list for its rank, an
/// earlier entry sorts before a later one.
proof fn lemma_place_counts_earlier(entries: Seq<EntryText>, a: int, b: int)
    requires
        entries.len() <= usize::MAX,
        forall|i: int|
            0 <= i < entries.len() ==> #[trigger] list_reports(entries)[i] == (ReportOf::Listed {
                place: i as usize,
                entry: entries[i],
            }),
        0 <= a < b < entries.len(),
    ensures
        entry_before(entries[a], entries[b]),
{
    assert forall|i: int| 0 <= i < entries.len() implies rank(entries, entries[i]) == i by {
        lemma_rank_of_member(entries, entries[i]);
        assert(list_reports(entries)[i] == (ReportView::Listed {
            place: i as usize,
            entry: entries[i],
        }));
    }
    if !entry_before(entries[a], entries[b]) {
        // The entries that sort before `entries[b]` sort before `entries[a]` too, so
        // the rank of `entries[b]` is at most that of `entries[a]`.
        lemma_rank_monotone(entries, entries[b], entries[a]);
    }
}

/// What does not sort after `high` has at most the rank of `high`.
proof fn lemma_rank_monotone(list: Seq<EntryText>, low: EntryText, high: EntryText)
    requires
        !entry_before(high, low),
    ensures
        rank(list, low) <= rank(list, high),
    decreases list.len(),
{
    if list.len() > 0 {
        lemma_rank_monotone(list.drop_last(), low, high);
        if entry_before(list.last(), low) {
            lemma_entry_before_total(low, high);
            if low != high {
                crate::entry::lemma_entry_before_transitive(list.last(), low, high);
            }
        }
    }
}

/// The place that `List` shows is a place of the list.
pub proof fn law_listed_place_in_range(entries: Seq<EntryText>, i: int)
    requires
        0 <= i < entries.len(),
    ensures
        rank(entries, entries[i]) < entries.len(),
{
    lemma_rank_of_member(entries, entries[i]);
}

/// `Add` appends: the entries that were there keep their places.
pub proof fn law_add_appends(state: StateView, name: Seq<char>, description: Seq<char>)
    ensures
        ({
            let given = CommandStateView {
                index: None,
                name: Some(name),
                description: Some(description),
            };
            let after = run(Command::Add, state, given);
            &&& after.state.entries.len() == state.entries.len() + 1
            &&& after.state.entries.last() == (EntryText { name, description })
            &&& forall|j: int|
                0 <= j < state.entries.len() ==> after.state.entries[j] == state.entries[j]
            &&& after.state.exit == state.exit
            &&& after.next == ActionView::Done
        }),
{
}

/// `Remove` takes the entry at the index out and moves the later ones down
/// by one. Where the list does not reach the index, it leaves the list as it
/// is and reports that.
pub proof fn law_remove(state: StateView, index: usize)
    ensures
        ({
            let given = CommandStateView { index: Some(index), name: None, description: None };
            let after = run(Command::Remove, state, given);
            if index < state.entries.len() {
                &&& after.state.entries.len() == state.entries.len() - 1
                &&& forall|j: int| 0 <= j < index ==> after.state.entries[j] == state.entries[j]
                &&& forall|j: int|
                    index <= j < after.state.entries.len() ==> after.state.entries[j]
                        == state.entries[j + 1]
                &&& after.reports == seq![ReportOf::Removed { entry: state.entries[index as int] }]
                &&& after.next == ActionView::Done
            } else {
                after == done(state, seq![ReportOf::NoEntryAt { index }])
            }
        }),
{
}

/// `Clear` empties a list that holds entries, and leaves an empty list as it
/// is and reports that.
pub proof fn law_clear(state: StateView, given: CommandStateView)
    ensures
        run(Command::Clear, state, given).state.entries.len() == 0,
        run(Command::Clear, state, given).next == ActionView::Done,
        state.entries.len() == 0 ==> run(Command::Clear, state, given) == done(
            state,
            seq![ReportOf::NothingToClear],
        ),
{
}

/// `Save` writes nothing for an empty list, and reports that.
pub proof fn law_save_of_empty_list(state: StateView, given: CommandStateView)
    requires
        state.entries.len() == 0,
    ensures
        run(Command::Save, state, given) == done(state, seq![ReportOf::NothingToSave]),
{
}

/// `Save` hands out the state as it is and has its text written as it is,
/// and `Load` of a save file that holds what `Save` handed out leaves the
/// list as it was: it asks nothing, warns of no version, and reports the
/// entries as loaded.
pub proof fn law_save_then_load(state: StateView, given: CommandStateView, text: Seq<char>)
    requires
        0 < state.entries.len() <= usize::MAX,
    ensures
        ({
            let saved = run(Command::Save, state, given);
            let file = SaveFileView::Holds(state);
            &&& saved == (Step {
                state,
                reports: seq![],
                next: ActionView::Serialize { snapshot: state },
            })
            &&& write_step(state, Some(text)) == (Step {
                state,
                reports: seq![],
                next: ActionView::Write { data: text },
            })
            &&& run(Command::Load, saved.state, given).next == ActionView::ReadToLoad
            &&& load_step(saved.state, file) == done(
                state,
                seq![ReportOf::Loaded { count: state.entries.len() as usize }],
            )
        }),
{
}

/// `Load` asks before it replaces a list that holds entries by other
/// entries, and changes nothing until it is answered. The answer `n` leaves
/// the list as it is. The answer `y` replaces the list by the entries of the
/// save file, if the save file could be used, and leaves it as it is if not.
/// Any answer that is unclear has the question asked again.
pub proof fn law_load_asks(state: StateView, file: SaveFileView)
    requires
        state.entries.len() > 0,
        !(file is Missing),
        candidate_state(file).entries != state.entries,
    ensures
        ({
            let candidate = candidate_state(file).entries;
            let blocked = !(file is Holds);
            let asked = load_step(state, file);
            let no = override_step(state, candidate, blocked, answer_given("n"@));
            let yes = override_step(state, candidate, blocked, answer_given("y"@));
            let unclear = override_step(state, candidate, blocked, Answer::Unclear);
            &&& asked.state == state
            &&& asked.next == ActionView::AskOverride { candidate, blocked }
            &&& no == done(state, seq![])
            &&& yes.next == ActionView::Done
            &&& yes.state == if blocked {
                state
            } else {
                with_entries(state, candidate)
            }
            &&& unclear.state == state
            &&& unclear.next == asked.next
        }),
{
    law_short_answers();
}

/// `Exit` asks before it leaves entries behind that the save file does not
/// hold. The answer `n` leaves the state as it is, so the session goes on.
/// Without a save file, with one that holds the entries of the list, or with
/// the answer `y`, the session ends.
pub proof fn law_exit(state: StateView, file: SaveFileView)
    ensures
        if file is Missing || candidate_state(file).entries == state.entries {
            leave_step(state, file) == done(leaving(state), seq![])
        } else {
            leave_step(state, file) == (Step { state, reports: seq![], next: ActionView::AskQuit })
        },
        quit_step(state, answer_given("n"@)) == done(state, seq![]),
        quit_step(state, answer_given("y"@)) == done(leaving(state), seq![]),
        quit_step(state, Answer::Unclear).state == state,
        quit_step(state, Answer::Unclear).next == ActionView::AskQuit,
        leaving(state).exit,
        leaving(state).entries == state.entries,
{
    law_short_answers();
}

/// Only `Exit` ends the session, and only with the save file or the answer
/// in hand: no command sets the flag at once, and `Load` never sets it.
/// Nothing changes the version.
pub proof fn law_session_goes_on(
    command: Command,
    state: StateView,
    given: CommandStateView,
    file: SaveFileView,
    candidate: Seq<EntryText>,
    blocked: bool,
    answer: Answer,
)
    ensures
        run(command, state, given).state.exit == state.exit,
        load_step(state, file).state.exit == state.exit,
        override_step(state, candidate, blocked, answer).state.exit == state.exit,
        run(command, state, given).state.manifest_version == state.manifest_version,
        load_step(state, file).state.manifest_version == state.manifest_version,
        override_step(state, candidate, blocked, answer).state.manifest_version
            == state.manifest_version,
        leave_step(state, file).state.manifest_version == state.manifest_version,
        quit_step(state, answer).state.manifest_version == state.manifest_version,
{
}

/// The digits of a number write that number.
proof fn lemma_decimal_writes(n: nat)
    ensures
        decimal(n).len() > 0,
        all_digits(decimal(n)),
        digits_value(decimal(n)) == n,
        number_written(decimal(n)) == Some(n),
    decreases n,
{
    if n < 10 {
        assert(digits_value(decimal(n).drop_last()) == 0);
    } else {
        lemma_decimal_writes(n / 10);
        assert(decimal(n).drop_last() =~= decimal(n / 10));
    }
}

/// What is written as the digits of an index is read back as that index.
pub proof fn law_written_index_is_read_back(n: usize)
    ensures
        index_written(decimal(n as nat)) == Some(n),
{
    lemma_decimal_writes(n as nat);
}

} // verus!
