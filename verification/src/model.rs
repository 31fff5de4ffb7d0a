//! The registry as a mathematical value, and what its operations return.
//!
//! A registry is a sequence of groups. A group has an owner (a system, or
//! none) and a sequence of entries, each a name and a GUID text. Everything
//! the registry answers is a function of that value and of the question.

use vstd::prelude::*;
use crate::guid::{GuidView, GUID};
use crate::system::System;
use crate::table::Row;
use crate::text::same_ignoring_case;

verus! {

/// An entry of a group: the name of a partition type and the text of its
/// GUID.
pub type EntryView = (Seq<char>, Seq<char>);

/// A group of the registry: its owner and its entries, in order.
pub struct GroupView {
    pub system: Option<System>,
    pub entries: Seq<EntryView>,
}

/// An entry together with the owner of its group.
pub struct Listing {
    pub system: Option<System>,
    pub name: Seq<char>,
    pub text: Seq<char>,
}

/// What a sequence of literal rows holds.
pub open spec fn rows_view(rows: Seq<Row>) -> Seq<EntryView> {
    Seq::new(rows.len(), |i: int| (rows[i].0@, rows[i].1@))
}

/// `at` is the first position of `entries` that holds `name`.
pub open spec fn is_first_position(entries: Seq<EntryView>, name: Seq<char>, at: int) -> bool {
    &&& 0 <= at < entries.len()
    &&& entries[at].0 == name
    &&& forall|j: int| 0 <= j < at ==> (#[trigger] entries[j]).0 != name
}

/// No entry of `entries` holds `name`.
pub open spec fn lacks_name(entries: Seq<EntryView>, name: Seq<char>) -> bool {
    forall|j: int| 0 <= j < entries.len() ==> (#[trigger] entries[j]).0 != name
}

/// The first position of `entries` that holds `name`, if there is one.
pub open spec fn position_of(entries: Seq<EntryView>, name: Seq<char>) -> Option<int>
    decreases entries.len(),
{
    if entries.len() == 0 {
        None
    } else {
        match position_of(entries.drop_last(), name) {
            Some(i) => Some(i),
            None => if entries.last().0 == name {
                Some(entries.len() - 1)
            } else {
                None
            },
        }
    }
}

/// The entries after `row` was declared: a name that is already there keeps
/// its place and takes the new GUID text; a new name goes to the end.
pub open spec fn insert_row(entries: Seq<EntryView>, row: EntryView) -> Seq<EntryView> {
    match position_of(entries, row.0) {
        Some(i) => entries.update(i, row),
        None => entries.push(row),
    }
}

/// The entries that a sequence of declared rows leaves behind.
pub open spec fn build(rows: Seq<EntryView>) -> Seq<EntryView>
    decreases rows.len(),
{
    if rows.len() == 0 {
        Seq::empty()
    } else {
        insert_row(build(rows.drop_last()), rows.last())
    }
}

/// The position of the first group that `system` owns, if there is one.
pub open spec fn group_position(groups: Seq<GroupView>, system: Option<System>) -> Option<int>
    decreases groups.len(),
{
    if groups.len() == 0 {
        None
    } else {
        match group_position(groups.drop_last(), system) {
            Some(i) => Some(i),
            None => if groups.last().system == system {
                Some(groups.len() - 1)
            } else {
                None
            },
        }
    }
}

/// The owners of the groups, in order.
pub open spec fn systems_of(groups: Seq<GroupView>) -> Seq<Option<System>> {
    Seq::new(groups.len(), |i: int| groups[i].system)
}

/// The entries of the group that `system` owns; none where there is no such
/// group.
pub open spec fn entries_of(groups: Seq<GroupView>, system: Option<System>) -> Seq<EntryView> {
    match group_position(groups, system) {
        Some(g) => groups[g].entries,
        None => Seq::empty(),
    }
}

/// The GUID that the group of `system` holds under `name`, if it holds one.
pub open spec fn guid_by_name(
    groups: Seq<GroupView>,
    system: Option<System>,
    name: Seq<char>,
) -> Option<GuidView> {
    let entries = entries_of(groups, system);
    match position_of(entries, name) {
        Some(i) => Some(GuidView { text: entries[i].1, system }),
        None => None,
    }
}

/// The entries of one group, each with the group's owner.
pub open spec fn listings_of(group: GroupView) -> Seq<Listing> {
    Seq::new(
        group.entries.len(),
        |i: int|
            Listing { system: group.system, name: group.entries[i].0, text: group.entries[i].1 },
    )
}

/// The entries of all groups, group after group.
pub open spec fn all_listings(groups: Seq<GroupView>) -> Seq<Listing>
    decreases groups.len(),
{
    if groups.len() == 0 {
        Seq::empty()
    } else {
        all_listings(groups.drop_last()) + listings_of(groups.last())
    }
}

/// Of the given listings, those called `name`: the owner and the GUID of
/// each, in order.
pub open spec fn guids_among(listings: Seq<Listing>, name: Seq<char>) -> Seq<
    (Option<System>, GuidView),
> {
    listings.filter(|l: Listing| l.name == name).map_values(
        |l: Listing| (l.system, GuidView { text: l.text, system: l.system }),
    )
}

/// Of the given listings, those whose GUID text is `text` up to the case of
/// letters: the owner and the name of each, in order.
pub open spec fn names_among(listings: Seq<Listing>, text: Seq<char>) -> Seq<
    (Option<System>, Seq<char>),
> {
    listings.filter(|l: Listing| same_ignoring_case(l.text, text)).map_values(
        |l: Listing| (l.system, l.name),
    )
}

/// The owner and the GUID of every entry called `name`, in the order of the
/// registry.
pub open spec fn guids_by_name(groups: Seq<GroupView>, name: Seq<char>) -> Seq<
    (Option<System>, GuidView),
> {
    guids_among(all_listings(groups), name)
}

/// The owner and the name of every entry whose GUID text is `text` up to
/// the case of letters, in the order of the registry.
pub open spec fn names_by_guid(groups: Seq<GroupView>, text: Seq<char>) -> Seq<
    (Option<System>, Seq<char>),
> {
    names_among(all_listings(groups), text)
}

/// The entries of the group that `system` owns, each GUID with its owner.
pub open spec fn guids_of(groups: Seq<GroupView>, system: Option<System>) -> Seq<
    (Seq<char>, GuidView),
> {
    let entries = entries_of(groups, system);
    Seq::new(entries.len(), |i: int| (entries[i].0, GuidView { text: entries[i].1, system }))
}

/// What a list of names and GUIDs holds.
pub open spec fn named_guids_view(found: Seq<(&'static str, GUID)>) -> Seq<(Seq<char>, GuidView)> {
    Seq::new(found.len(), |i: int| (found[i].0@, found[i].1@))
}

/// What a list of owners and GUIDs holds.
pub open spec fn owned_guids_view(found: Seq<(Option<System>, GUID)>) -> Seq<
    (Option<System>, GuidView),
> {
    Seq::new(found.len(), |i: int| (found[i].0, found[i].1@))
}

/// What a list of owners and names holds.
pub open spec fn owned_names_view(found: Seq<(Option<System>, &'static str)>) -> Seq<
    (Option<System>, Seq<char>),
> {
    Seq::new(found.len(), |i: int| (found[i].0, found[i].1@))
}

/// `position_of` finds the first position that holds the name, and finds
/// none only where no position holds it.
pub proof fn lemma_position_of(entries: Seq<EntryView>, name: Seq<char>)
    ensures
        match position_of(entries, name) {
            Some(i) => is_first_position(entries, name, i),
            None => lacks_name(entries, name),
        },
    decreases entries.len(),
{
    if entries.len() > 0 {
        let front = entries.drop_last();
        lemma_position_of(front, name);
        assert forall|j: int| 0 <= j < front.len() implies (#[trigger] entries[j]).0 != name || (
        position_of(front, name) matches Some(i) && i <= j) by {
            assert(front[j] == entries[j]);
        }
    }
}

/// `group_position` finds the first group of the system, and finds none
/// only where the system owns no group.
pub proof fn lemma_group_position(groups: Seq<GroupView>, system: Option<System>)
    ensures
        match group_position(groups, system) {
            Some(g) => {
                &&& 0 <= g < groups.len()
                &&& groups[g].system == system
                &&& forall|j: int| 0 <= j < g ==> (#[trigger] groups[j]).system != system
            },
            None => forall|j: int| 0 <= j < groups.len() ==> (#[trigger] groups[j]).system != system,
        },
    decreases groups.len(),
{
    if groups.len() > 0 {
        let front = groups.drop_last();
        lemma_group_position(front, system);
        assert forall|j: int| 0 <= j < front.len() implies (#[trigger] groups[j]).system != system
            || (group_position(front, system) matches Some(g) && g <= j) by {
            assert(front[j] == groups[j]);
        }
    }
}

/// The listings of the first `g + 1` groups are those of the first `g`,
/// followed by those of group `g`.
pub proof fn lemma_all_listings_step(groups: Seq<GroupView>, g: int)
    requires
        0 <= g < groups.len(),
    ensures
        all_listings(groups.take(g + 1)) == all_listings(groups.take(g)) + listings_of(groups[g]),
{
    assert(groups.take(g + 1).drop_last() =~= groups.take(g));
}

/// One more listing adds its owner and GUID to those found under `name`
/// where it is called `name`, and nothing where it is not.
pub proof fn lemma_guids_among_push(listings: Seq<Listing>, l: Listing, name: Seq<char>)
    ensures
        guids_among(listings.push(l), name) == if l.name == name {
            guids_among(listings, name).push((l.system, GuidView { text: l.text, system: l.system }))
        } else {
            guids_among(listings, name)
        },
{
    let called = |l: Listing| l.name == name;
    listings.lemma_filter_push(l, called);
    if l.name == name {
        assert(guids_among(listings.push(l), name) =~= guids_among(listings, name).push(
            (l.system, GuidView { text: l.text, system: l.system }),
        ));
    }
}

/// One more listing adds its owner and name to those found under `text`
/// where its GUID text is `text` up to the case of letters, and nothing
/// where it is not.
pub proof fn lemma_names_among_push(listings: Seq<Listing>, l: Listing, text: Seq<char>)
    ensures
        names_among(listings.push(l), text) == if same_ignoring_case(l.text, text) {
            names_among(listings, text).push((l.system, l.name))
        } else {
            names_among(listings, text)
        },
{
    let spelt = |l: Listing| same_ignoring_case(l.text, text);
    listings.lemma_filter_push(l, spelt);
    if same_ignoring_case(l.text, text) {
        assert(names_among(listings.push(l), text) =~= names_among(listings, text).push(
            (l.system, l.name),
        ));
    }
}

} // verus!
