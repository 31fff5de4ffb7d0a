//! What holds of every group that rows declare, and of every registry.

use vstd::prelude::*;
use crate::guid::{GuidView, GUID};
use crate::model::{
    all_listings, build, entries_of, group_position, guid_by_name, guids_by_name, guids_of,
    insert_row, lacks_name, lemma_group_position, lemma_position_of, listings_of,
    named_guids_view, names_by_guid, owned_guids_view, owned_names_view, position_of, EntryView,
    GroupView, Listing,
};
use crate::registry::Registry;
use crate::system::System;
use crate::text::{lemma_case_is_ignored, lower_text, same_ignoring_case, upper_text};

verus! {

/// `at` is the last position of `rows` that declares `name`.
pub open spec fn is_last_position(rows: Seq<EntryView>, name: Seq<char>, at: int) -> bool {
    &&& 0 <= at < rows.len()
    &&& rows[at].0 == name
    &&& forall|j: int| at < j < rows.len() ==> (#[trigger] rows[j]).0 != name
}

/// No two entries have the same name.
pub open spec fn names_are_distinct(entries: Seq<EntryView>) -> bool {
    forall|i: int, j: int|
        0 <= i < j < entries.len() ==> (#[trigger] entries[i]).0 != (#[trigger] entries[j]).0
}

/// Declaring one more row leaves the other names where they are, with the
/// GUID texts they had.
pub proof fn lemma_insert_row_keeps_others(entries: Seq<EntryView>, row: EntryView, name: Seq<char>)
    requires
        row.0 != name,
    ensures
        position_of(insert_row(entries, row), name) == position_of(entries, name),
        position_of(entries, name) matches Some(i) ==> insert_row(entries, row)[i] == entries[i],
{
    let after = insert_row(entries, row);
    lemma_position_of(entries, row.0);
    lemma_position_of(entries, name);
    lemma_position_of(after, name);
    match position_of(entries, name) {
        Some(i) => {
            assert(after[i] == entries[i]);
            assert(after[i].0 == name);
            assert forall|j: int| 0 <= j < i implies (#[trigger] after[j]).0 != name by {
                if after[j] != entries[j] {
                    assert(after[j] == row);
                } else {
                    assert(entries[j].0 != name);
                }
            }
        },
        None => {
            assert forall|j: int| 0 <= j < after.len() implies (#[trigger] after[j]).0 != name by {
                if j < entries.len() && after[j] == entries[j] {
                    assert(entries[j].0 != name);
                } else {
                    assert(after[j] == row);
                }
            }
        },
    }
}

/// After a row was declared, its name stands where it stood before, or at
/// the end if it is new, and has the GUID text of the row.
pub proof fn lemma_insert_row_sets(entries: Seq<EntryView>, row: EntryView)
    ensures
        position_of(insert_row(entries, row), row.0) matches Some(i) && insert_row(entries, row)[i]
            == row && i == match position_of(entries, row.0) {
            Some(k) => k,
            None => entries.len() as int,
        },
{
    let after = insert_row(entries, row);
    lemma_position_of(entries, row.0);
    lemma_position_of(after, row.0);
    match position_of(entries, row.0) {
        Some(k) => {
            assert(after[k] == row);
            assert forall|j: int| 0 <= j < k implies (#[trigger] after[j]).0 != row.0 by {
                assert(after[j] == entries[j]);
            }
        },
        None => {
            assert(after[entries.len() as int] == row);
            assert forall|j: int| 0 <= j < entries.len() implies (#[trigger] after[j]).0
                != row.0 by {
                assert(after[j] == entries[j]);
            }
        },
    }
}

/// Declaring a row keeps the names of a group distinct.
pub proof fn lemma_insert_row_keeps_distinct(entries: Seq<EntryView>, row: EntryView)
    requires
        names_are_distinct(entries),
    ensures
        names_are_distinct(insert_row(entries, row)),
{
    let after = insert_row(entries, row);
    lemma_position_of(entries, row.0);
    assert forall|i: int, j: int| 0 <= i < j < after.len() implies (#[trigger] after[i]).0 != (
    #[trigger] after[j]).0 by {
        match position_of(entries, row.0) {
            Some(k) => {
                assert(entries[k].0 == row.0);
                assert(after[i].0 == entries[i].0);
                assert(after[j].0 == entries[j].0);
            },
            None => {
                if j < entries.len() {
                    assert(after[i] == entries[i] && after[j] == entries[j]);
                } else {
                    assert(after[i] == entries[i]);
                    assert(entries[i].0 != row.0);
                }
            },
        }
    }
}

/// In the group that rows declare, no name occurs twice.
pub proof fn lemma_build_names_distinct(rows: Seq<EntryView>)
    ensures
        names_are_distinct(build(rows)),
    decreases rows.len(),
{
    if rows.len() > 0 {
        lemma_build_names_distinct(rows.drop_last());
        lemma_insert_row_keeps_distinct(build(rows.drop_last()), rows.last());
    }
}

/// The later declaration wins: the group that rows declare holds a name if
/// and only if some row declares it, and holds it with the GUID text of the
/// last row that does.
pub proof fn lemma_build_last_wins(rows: Seq<EntryView>, name: Seq<char>)
    ensures
        match position_of(build(rows), name) {
            Some(i) => exists|k: int| #[trigger]
                is_last_position(rows, name, k) && build(rows)[i] == rows[k],
            None => lacks_name(rows, name),
        },
    decreases rows.len(),
{
    if rows.len() > 0 {
        let front = rows.drop_last();
        let row = rows.last();
        lemma_build_last_wins(front, name);
        if row.0 == name {
            lemma_insert_row_sets(build(front), row);
            assert(is_last_position(rows, name, rows.len() - 1));
        } else {
            lemma_insert_row_keeps_others(build(front), row, name);
            match position_of(build(front), name) {
                Some(i) => {
                    let k = choose|k: int| #[trigger]
                        is_last_position(front, name, k) && build(front)[i] == front[k];
                    assert(rows[k] == front[k]);
                    assert forall|j: int| k < j < rows.len() implies (#[trigger] rows[j]).0
                        != name by {
                        if j < front.len() {
                            assert(front[j] == rows[j]);
                        }
                    }
                    assert(is_last_position(rows, name, k));
                },
                None => {
                    assert forall|j: int| 0 <= j < rows.len() implies (#[trigger] rows[j]).0
                        != name by {
                        if j < front.len() {
                            assert(front[j] == rows[j]);
                        }
                    }
                },
            }
        }
    } else {
        assert(lacks_name(rows, name));
    }
}

/// Names stand in the order in which they were first declared: of two
/// entries of the group that rows declare, the earlier one has the name that
/// the rows declare first.
pub proof fn lemma_build_keeps_first_order(rows: Seq<EntryView>, i: int, j: int)
    requires
        0 <= i < j < build(rows).len(),
    ensures
        position_of(rows, build(rows)[i].0) matches Some(a) && position_of(rows, build(rows)[j].0)
            matches Some(b) && a < b,
    decreases rows.len(),
{
    let front = rows.drop_last();
    let row = rows.last();
    let kept = build(front);
    let after = build(rows);
    lemma_position_of(kept, row.0);
    lemma_build_last_wins(front, row.0);
    lemma_build_declares(front, i);
    lemma_position_of(rows, row.0);
    match position_of(kept, row.0) {
        Some(k) => {
            assert(after[i].0 == kept[i].0 && after[j].0 == kept[j].0);
            lemma_build_keeps_first_order(front, i, j);
        },
        None => {
            assert(after[i] == kept[i]);
            if j < kept.len() {
                assert(after[j] == kept[j]);
                lemma_build_keeps_first_order(front, i, j);
            } else {
                assert(after[j] == row);
                assert(position_of(front, row.0) is None) by {
                    lemma_position_of(front, row.0);
                }
            }
        },
    }
}

/// Every name of the group that rows declare is declared by one of the
/// rows.
pub proof fn lemma_build_declares(rows: Seq<EntryView>, i: int)
    requires
        0 <= i < build(rows).len(),
    ensures
        position_of(rows, build(rows)[i].0) matches Some(a) && 0 <= a < rows.len(),
{
    let name = build(rows)[i].0;
    lemma_build_last_wins(rows, name);
    lemma_position_of(build(rows), name);
    lemma_position_of(rows, name);
    if position_of(rows, name) is None {
        let k = choose|k: int| #[trigger] is_last_position(rows, name, k);
        assert(rows[k].0 == name);
    }
}

/// What holds of every row holds of every entry of the group that the rows
/// declare, and rows that are not empty declare a group that is not empty.
pub proof fn lemma_build_keeps(rows: Seq<EntryView>, holds: spec_fn(EntryView) -> bool)
    requires
        forall|k: int| 0 <= k < rows.len() ==> holds(#[trigger] rows[k]),
    ensures
        forall|i: int| 0 <= i < build(rows).len() ==> holds(#[trigger] build(rows)[i]),
        build(rows).len() <= rows.len(),
        rows.len() > 0 ==> build(rows).len() > 0,
    decreases rows.len(),
{
    if rows.len() > 0 {
        let front = rows.drop_last();
        assert forall|k: int| 0 <= k < front.len() implies holds(#[trigger] front[k]) by {
            assert(front[k] == rows[k]);
        }
        lemma_build_keeps(front, holds);
        lemma_position_of(build(front), rows.last().0);
        assert(holds(rows[rows.len() - 1]));
    }
}

/// Rows that declare no name twice declare themselves: the group holds them
/// as they stand.
pub proof fn lemma_build_of_distinct_rows(rows: Seq<EntryView>)
    requires
        names_are_distinct(rows),
    ensures
        build(rows) == rows,
    decreases rows.len(),
{
    if rows.len() > 0 {
        let front = rows.drop_last();
        assert forall|i: int, j: int| 0 <= i < j < front.len() implies (#[trigger] front[i]).0 != (
        #[trigger] front[j]).0 by {
            assert(front[i] == rows[i] && front[j] == rows[j]);
        }
        lemma_build_of_distinct_rows(front);
        lemma_position_of(front, rows.last().0);
        assert forall|j: int| 0 <= j < front.len() implies (#[trigger] front[j]).0
            != rows.last().0 by {
            assert(front[j] == rows[j]);
            assert(rows[j].0 != rows[rows.len() - 1].0);
        }
        assert(build(rows) =~= rows);
    } else {
        assert(build(rows) =~= rows);
    }
}

/// No two groups have the same owner, and no group holds a name twice.
pub open spec fn is_well_formed(groups: Seq<GroupView>) -> bool {
    &&& forall|g: int, h: int|
        0 <= g < h < groups.len() ==> (#[trigger] groups[g]).system != (#[trigger] groups[h]).system
    &&& forall|g: int| 0 <= g < groups.len() ==> names_are_distinct((#[trigger] groups[g]).entries)
}

/// The listings of a registry are the entries of its groups, each with the
/// owner of its group.
pub proof fn lemma_all_listings_holds(groups: Seq<GroupView>, l: Listing)
    ensures
        all_listings(groups).contains(l) <==> exists|g: int, i: int|
            0 <= g < groups.len() && 0 <= i < groups[g].entries.len() && l == #[trigger] listings_of(
                groups[g],
            )[i],
    decreases groups.len(),
{
    if groups.len() > 0 {
        let front = groups.drop_last();
        let here = listings_of(groups.last());
        lemma_all_listings_holds(front, l);
        if all_listings(groups).contains(l) {
            let at = choose|at: int|
                0 <= at < all_listings(groups).len() && all_listings(groups)[at] == l;
            if at < all_listings(front).len() {
                assert(all_listings(front)[at] == l);
                let (g, i) = choose|g: int, i: int|
                    0 <= g < front.len() && 0 <= i < front[g].entries.len() && l
                        == #[trigger] listings_of(front[g])[i];
                assert(front[g] == groups[g]);
                assert(l == listings_of(groups[g])[i]);
            } else {
                let i = at - all_listings(front).len();
                assert(l == listings_of(groups[groups.len() - 1])[i]);
            }
        }
        if exists|g: int, i: int|
            0 <= g < groups.len() && 0 <= i < groups[g].entries.len() && l
                == #[trigger] listings_of(groups[g])[i] {
            let (g, i) = choose|g: int, i: int|
                0 <= g < groups.len() && 0 <= i < groups[g].entries.len() && l
                    == #[trigger] listings_of(groups[g])[i];
            if g < front.len() {
                assert(front[g] == groups[g]);
                assert(l == listings_of(front[g])[i]);
                assert(all_listings(front).contains(l));
                let at = choose|at: int|
                    0 <= at < all_listings(front).len() && all_listings(front)[at] == l;
                assert(all_listings(groups)[at] == l);
            } else {
                assert(all_listings(groups)[all_listings(front).len() + i] == l);
            }
        }
    }
}

/// A search through every group agrees with the lookups in the single
/// groups: in a well-formed registry, the search for a name finds a GUID
/// under an owner if and only if the lookup of the name in the group of that
/// owner gives that GUID.
pub proof fn lemma_search_agrees_with_lookup(
    groups: Seq<GroupView>,
    name: Seq<char>,
    system: Option<System>,
    guid: GuidView,
)
    requires
        is_well_formed(groups),
    ensures
        guids_by_name(groups, name).contains((system, guid)) <==> guid_by_name(groups, system, name)
            == Some(guid),
{
    let called = |l: Listing| l.name == name;
    let found = all_listings(groups).filter(called);
    let owned = |l: Listing| (l.system, GuidView { text: l.text, system: l.system });
    let entries = entries_of(groups, system);
    lemma_group_position(groups, system);
    lemma_position_of(entries, name);
    if guid_by_name(groups, system, name) == Some(guid) {
        let g = group_position(groups, system)->0;
        let i = position_of(entries, name)->0;
        let l = listings_of(groups[g])[i];
        lemma_all_listings_holds(groups, l);
        assert(called(l));
        let from = choose|from: int|
            0 <= from < all_listings(groups).len() && all_listings(groups)[from] == l;
        all_listings(groups).lemma_filter_contains(called, from);
        let at = choose|at: int| 0 <= at < found.len() && found[at] == l;
        assert(guids_by_name(groups, name)[at] == (system, guid));
    }
    if guids_by_name(groups, name).contains((system, guid)) {
        let at = choose|at: int|
            0 <= at < guids_by_name(groups, name).len() && guids_by_name(groups, name)[at] == (
                system,
                guid,
            );
        let l = found[at];
        assert(found.contains(l));
        all_listings(groups).lemma_filter_pred(called, at);
        all_listings(groups).lemma_filter_contains_rev(called, l);
        lemma_all_listings_holds(groups, l);
        let (g, i) = choose|g: int, i: int|
            0 <= g < groups.len() && 0 <= i < groups[g].entries.len() && l
                == #[trigger] listings_of(groups[g])[i];
        assert(groups[g].system == system);
        assert(group_position(groups, system) == Some(g));
        assert(entries[i].0 == name);
        assert(position_of(entries, name) == Some(i));
    }
}

/// A lookup by GUID does not depend on the case of the letters in the text
/// it is given: two texts that differ in case alone find the same entries.
pub proof fn lemma_lookup_by_guid_ignores_case(
    groups: Seq<GroupView>,
    text: Seq<char>,
    other: Seq<char>,
)
    requires
        same_ignoring_case(text, other),
    ensures
        names_by_guid(groups, text) == names_by_guid(groups, other),
{
    let spelt = |l: Listing| same_ignoring_case(l.text, text);
    let spelt_other = |l: Listing| same_ignoring_case(l.text, other);
    assert(spelt =~= spelt_other);
}

/// A lookup by GUID finds the same entries for a text, for the text in
/// lower case and for the text in upper case.
pub proof fn lemma_lookup_by_guid_lower_as_upper(groups: Seq<GroupView>, text: Seq<char>)
    ensures
        names_by_guid(groups, lower_text(text)) == names_by_guid(groups, upper_text(text)),
        names_by_guid(groups, lower_text(text)) == names_by_guid(groups, text),
{
    lemma_case_is_ignored(text);
    lemma_lookup_by_guid_ignores_case(groups, lower_text(text), upper_text(text));
    lemma_lookup_by_guid_ignores_case(groups, lower_text(text), text);
}

/// Listing the entries of a group twice gives the same entries in the same
/// order: what `Registry::entries` returns for a group holds, position by
/// position, the same names and the same GUIDs every time.
pub proof fn lemma_entries_is_deterministic(
    registry: Registry,
    group: Option<System>,
    first: Seq<(&'static str, GUID)>,
    second: Seq<(&'static str, GUID)>,
)
    requires
        named_guids_view(first) == guids_of(registry@, group),
        named_guids_view(second) == guids_of(registry@, group),
    ensures
        first.len() == second.len(),
        forall|i: int|
            0 <= i < first.len() ==> (#[trigger] first[i]).0@ == second[i].0@ && first[i].1@
                == second[i].1@,
{
    assert(named_guids_view(first).len() == first.len());
    assert(named_guids_view(second).len() == second.len());
    assert forall|i: int| 0 <= i < first.len() implies (#[trigger] first[i]).0@ == second[i].0@
        && first[i].1@ == second[i].1@ by {
        assert(named_guids_view(first)[i] == named_guids_view(second)[i]);
    }
}

/// What a lookup by name answers, as its contract states it.
pub open spec fn answers_lookup_by_name(
    groups: Seq<GroupView>,
    group: Option<System>,
    name: Seq<char>,
    answer: Option<GUID>,
) -> bool {
    match answer {
        Some(g) => guid_by_name(groups, group, name) == Some(g@),
        None => guid_by_name(groups, group, name) is None,
    }
}

/// No operation changes what a later one answers. Every operation reads the
/// registry through a shared reference, so the registry holds the same
/// before and after; and what each operation returns is fixed by what the
/// registry holds and by the question. So an answer given before other
/// operations and the answer to the same question after them hold the same:
/// the same GUID or none for a lookup by name, and the same items in the
/// same order for a search by name and for a lookup by GUID.
pub proof fn lemma_later_answers_are_the_same(
    registry: Registry,
    group: Option<System>,
    name: Seq<char>,
    text: Seq<char>,
    guid_before: Option<GUID>,
    guid_after: Option<GUID>,
    guids_before: Seq<(Option<System>, GUID)>,
    guids_after: Seq<(Option<System>, GUID)>,
    names_before: Seq<(Option<System>, &'static str)>,
    names_after: Seq<(Option<System>, &'static str)>,
)
    requires
        answers_lookup_by_name(registry@, group, name, guid_before),
        answers_lookup_by_name(registry@, group, name, guid_after),
        owned_guids_view(guids_before) == guids_by_name(registry@, name),
        owned_guids_view(guids_after) == guids_by_name(registry@, name),
        owned_names_view(names_before) == names_by_guid(registry@, text),
        owned_names_view(names_after) == names_by_guid(registry@, text),
    ensures
        guid_before is Some <==> guid_after is Some,
        guid_before is Some ==> guid_before->0@ == guid_after->0@,
        guids_before.len() == guids_after.len(),
        forall|i: int|
            0 <= i < guids_before.len() ==> (#[trigger] guids_before[i]).0 == guids_after[i].0
                && guids_before[i].1@ == guids_after[i].1@,
        names_before.len() == names_after.len(),
        forall|i: int|
            0 <= i < names_before.len() ==> (#[trigger] names_before[i]).0 == names_after[i].0
                && names_before[i].1@ == names_after[i].1@,
{
    assert(owned_guids_view(guids_before).len() == guids_before.len());
    assert(owned_guids_view(guids_after).len() == guids_after.len());
    assert forall|i: int| 0 <= i < guids_before.len() implies (#[trigger] guids_before[i]).0
        == guids_after[i].0 && guids_before[i].1@ == guids_after[i].1@ by {
        assert(owned_guids_view(guids_before)[i] == owned_guids_view(guids_after)[i]);
    }
    assert(owned_names_view(names_before).len() == names_before.len());
    assert(owned_names_view(names_after).len() == names_after.len());
    assert forall|i: int| 0 <= i < names_before.len() implies (#[trigger] names_before[i]).0
        == names_after[i].0 && names_before[i].1@ == names_after[i].1@ by {
        assert(owned_names_view(names_before)[i] == owned_names_view(names_after)[i]);
    }
}

} // verus!
