//! The registry: groups of partition types, built once from literal rows and
//! only read afterwards.

use vstd::prelude::*;
use crate::guid::{GuidView, GUID};
use crate::model::{
    all_listings, build, entries_of, group_position, guid_by_name, guids_among, guids_by_name,
    guids_of, lemma_all_listings_step, lemma_group_position, lemma_guids_among_push,
    lemma_names_among_push, lemma_position_of, listings_of, named_guids_view, names_among,
    names_by_guid, owned_guids_view, owned_names_view, position_of, rows_view, systems_of,
    GroupView,
};
use crate::system::{same_group, System};
use crate::table::{
    Row, ANDROID_ARM, ANDROID_IA, APPLE, ATARITOS, CEPH, CHROMEOS, COREOS, FREEBSD, GENERAL, HAIKU,
    LINUX, MIDNIGHTBSD, NETBSD, ONIE, OPENBSD, QNX, SOLARIS, VMWARE, WINDOWS,
};
use crate::text::{str_equal, str_equal_ignoring_case};

verus! {

/// The group that a table declares for `system`.
pub open spec fn declared(system: Option<System>, table: Seq<Row>) -> GroupView {
    GroupView { system, entries: build(rows_view(table)) }
}

/// The partition types of one owner, each name once, in the order in which
/// the names were first declared.
pub struct Group {
    system: Option<System>,
    rows: Vec<Row>,
}

impl View for Group {
    type V = GroupView;

    closed spec fn view(&self) -> GroupView {
        GroupView { system: self.system, entries: rows_view(self.rows@) }
    }
}

/// The first position among `rows` whose name is `name`.
fn find_row(rows: &Vec<Row>, name: &str) -> (r: Option<usize>)
    ensures
        match r {
            Some(i) => i < rows.len() && position_of(rows_view(rows@), name@) == Some(i as int),
            None => position_of(rows_view(rows@), name@) is None,
        },
{
    let mut i: usize = 0;
    while i < rows.len()
        invariant
            i <= rows.len(),
            forall|j: int| 0 <= j < i ==> (#[trigger] rows_view(rows@)[j]).0 != name@,
        decreases rows.len() - i,
    {
        if str_equal(rows[i].0, name) {
            proof {
                lemma_position_of(rows_view(rows@), name@);
                assert(rows_view(rows@)[i as int].0 == name@);
            }
            return Some(i);
        }
        i = i + 1;
    }
    proof {
        lemma_position_of(rows_view(rows@), name@);
    }
    None
}

impl Group {
    /// The group of `system` that the rows declare: a name declared again
    /// keeps its place and takes the later GUID text.
    pub fn from_rows(system: Option<System>, rows: &[Row]) -> (g: Group)
        ensures
            g@ == declared(system, rows@),
    {
        let mut kept: Vec<Row> = Vec::new();
        let mut k: usize = 0;
        while k < rows.len()
            invariant
                k <= rows.len(),
                rows_view(kept@) == build(rows_view(rows@.take(k as int))),
            decreases rows.len() - k,
        {
            let row = rows[k];
            let ghost before = rows_view(kept@);
            let ghost upto = rows_view(rows@.take(k + 1));
            assert(upto.drop_last() =~= rows_view(rows@.take(k as int)));
            assert(upto.last() == (row.0@, row.1@));
            match find_row(&kept, row.0) {
                Some(i) => {
                    kept.set(i, row);
                    assert(rows_view(kept@) =~= before.update(i as int, (row.0@, row.1@)));
                },
                None => {
                    kept.push(row);
                    assert(rows_view(kept@) =~= before.push((row.0@, row.1@)));
                },
            }
            k = k + 1;
        }
        assert(rows@.take(k as int) =~= rows@);
        Group { system, rows: kept }
    }

    /// The owner of the group.
    pub fn system(&self) -> (s: Option<System>)
        ensures
            s == self@.system,
    {
        self.system
    }

    /// The number of entries.
    pub fn len(&self) -> (n: usize)
        ensures
            n == self@.entries.len(),
    {
        self.rows.len()
    }

    /// The GUID that the group holds under `name`, if it holds one.
    pub fn find(&self, name: &str) -> (r: Option<GUID>)
        ensures
            match r {
                Some(g) => position_of(self@.entries, name@) matches Some(i) && g@ == (GuidView {
                    text: self@.entries[i].1,
                    system: self@.system,
                }),
                None => position_of(self@.entries, name@) is None,
            },
    {
        match find_row(&self.rows, name) {
            Some(i) => Some(GUID::new(self.rows[i].1, self.system)),
            None => None,
        }
    }
}

/// The registry of the published partition types: the group without an
/// owner first, then one group for each system, each as its table declares
/// it.
pub open spec fn standard_registry() -> Seq<GroupView> {
    seq![
        declared(None, GENERAL@),
        declared(Some(System::Windows), WINDOWS@),
        declared(Some(System::Linux), LINUX@),
        declared(Some(System::FreeBSD), FREEBSD@),
        declared(Some(System::Apple), APPLE@),
        declared(Some(System::Solaris), SOLARIS@),
        declared(Some(System::NetBSD), NETBSD@),
        declared(Some(System::ChromeOS), CHROMEOS@),
        declared(Some(System::CoreOS), COREOS@),
        declared(Some(System::Haiku), HAIKU@),
        declared(Some(System::MidnightBSD), MIDNIGHTBSD@),
        declared(Some(System::Ceph), CEPH@),
        declared(Some(System::OpenBSD), OPENBSD@),
        declared(Some(System::QNX), QNX@),
        declared(Some(System::VMware), VMWARE@),
        declared(Some(System::AndroidIA), ANDROID_IA@),
        declared(Some(System::AndroidARM), ANDROID_ARM@),
        declared(Some(System::ONIE), ONIE@),
        declared(Some(System::AtariTOS), ATARITOS@),
    ]
}

/// The groups of partition types. A registry is built whole and offers no
/// way to change it.
pub struct Registry {
    groups: Vec<Group>,
}

impl View for Registry {
    type V = Seq<GroupView>;

    closed spec fn view(&self) -> Seq<GroupView> {
        Seq::new(self.groups@.len(), |i: int| self.groups@[i]@)
    }
}

impl Registry {
    /// The registry of the published partition types.
    pub fn new() -> (r: Registry)
        ensures
            r@ == standard_registry(),
    {
        let mut groups: Vec<Group> = Vec::new();
        groups.push(Group::from_rows(None, &GENERAL));
        groups.push(Group::from_rows(Some(System::Windows), &WINDOWS));
        groups.push(Group::from_rows(Some(System::Linux), &LINUX));
        groups.push(Group::from_rows(Some(System::FreeBSD), &FREEBSD));
        groups.push(Group::from_rows(Some(System::Apple), &APPLE));
        groups.push(Group::from_rows(Some(System::Solaris), &SOLARIS));
        groups.push(Group::from_rows(Some(System::NetBSD), &NETBSD));
        groups.push(Group::from_rows(Some(System::ChromeOS), &CHROMEOS));
        groups.push(Group::from_rows(Some(System::CoreOS), &COREOS));
        groups.push(Group::from_rows(Some(System::Haiku), &HAIKU));
        groups.push(Group::from_rows(Some(System::MidnightBSD), &MIDNIGHTBSD));
        groups.push(Group::from_rows(Some(System::Ceph), &CEPH));
        groups.push(Group::from_rows(Some(System::OpenBSD), &OPENBSD));
        groups.push(Group::from_rows(Some(System::QNX), &QNX));
        groups.push(Group::from_rows(Some(System::VMware), &VMWARE));
        groups.push(Group::from_rows(Some(System::AndroidIA), &ANDROID_IA));
        groups.push(Group::from_rows(Some(System::AndroidARM), &ANDROID_ARM));
        groups.push(Group::from_rows(Some(System::ONIE), &ONIE));
        groups.push(Group::from_rows(Some(System::AtariTOS), &ATARITOS));
        let r = Registry { groups };
        assert(r@ =~= standard_registry());
        r
    }

    /// The position of the first group that `system` owns.
    fn find_group(&self, system: Option<System>) -> (r: Option<usize>)
        ensures
            match r {
                Some(g) => {
                    &&& g < self.groups.len()
                    &&& self@[g as int].system == system
                    &&& group_position(self@, system) == Some(g as int)
                },
                None => group_position(self@, system) is None,
            },
    {
        let mut g: usize = 0;
        while g < self.groups.len()
            invariant
                g <= self.groups.len(),
                forall|j: int| 0 <= j < g ==> (#[trigger] self@[j]).system != system,
            decreases self.groups.len() - g,
        {
            if same_group(self.groups[g].system, system) {
                proof {
                    lemma_group_position(self@, system);
                    assert(self@[g as int].system == system);
                }
                return Some(g);
            }
            g = g + 1;
        }
        proof {
            lemma_group_position(self@, system);
        }
        None
    }

    /// The owners of the groups, in the order of the registry.
    pub fn groups(&self) -> (r: Vec<Option<System>>)
        ensures
            r@ == systems_of(self@),
    {
        let mut owners: Vec<Option<System>> = Vec::new();
        let mut g: usize = 0;
        while g < self.groups.len()
            invariant
                g <= self.groups.len(),
                owners@ == systems_of(self@).take(g as int),
            decreases self.groups.len() - g,
        {
            owners.push(self.groups[g].system);
            assert(owners@ =~= systems_of(self@).take(g + 1));
            g = g + 1;
        }
        assert(systems_of(self@).take(g as int) =~= systems_of(self@));
        owners
    }

    /// The entries of the group that `group` selects, in the order of the
    /// group; none where the registry has no such group.
    pub fn entries(&self, group: Option<System>) -> (r: Vec<(&'static str, GUID)>)
        ensures
            named_guids_view(r@) == guids_of(self@, group),
    {
        let mut found: Vec<(&'static str, GUID)> = Vec::new();
        match self.find_group(group) {
            Some(g) => {
                assert(self@[g as int] == self.groups[g as int]@);
                let rows = &self.groups[g].rows;
                let mut i: usize = 0;
                while i < rows.len()
                    invariant
                        i <= rows.len(),
                        found@.len() == i,
                        rows_view(rows@) == entries_of(self@, group),
                        named_guids_view(found@) == guids_of(self@, group).take(i as int),
                    decreases rows.len() - i,
                {
                    let ghost before = found@;
                    found.push((rows[i].0, GUID::new(rows[i].1, group)));
                    proof {
                        let all = guids_of(self@, group);
                        assert forall|j: int| 0 <= j < i + 1 implies named_guids_view(found@)[j]
                            == all[j] by {
                            if j < i {
                                assert(named_guids_view(before)[j] == all.take(i as int)[j]);
                            } else {
                                assert(rows_view(rows@)[j] == entries_of(self@, group)[j]);
                            }
                        }
                        assert(named_guids_view(found@) =~= all.take(i + 1));
                    }
                    i = i + 1;
                }
                assert(guids_of(self@, group).take(i as int) =~= guids_of(self@, group));
            },
            None => {
                assert(named_guids_view(found@) =~= guids_of(self@, group));
            },
        }
        found
    }

    /// The GUID registered for `name` in the group that `group` selects.
    /// Names are matched exactly.
    pub fn lookup_by_name(&self, group: Option<System>, name: &str) -> (r: Option<GUID>)
        ensures
            match r {
                Some(g) => guid_by_name(self@, group, name@) == Some(g@),
                None => guid_by_name(self@, group, name@) is None,
            },
    {
        match self.find_group(group) {
            Some(g) => {
                assert(self@[g as int] == self.groups[g as int]@);
                self.groups[g].find(name)
            },
            None => None,
        }
    }

    /// Every entry called `name`, in whatever group it stands: the owner of
    /// the group and the GUID, in the order of the registry. Names are
    /// matched exactly.
    pub fn lookup_by_name_any_group(&self, name: &str) -> (r: Vec<(Option<System>, GUID)>)
        ensures
            owned_guids_view(r@) == guids_by_name(self@, name@),
    {
        let mut found: Vec<(Option<System>, GUID)> = Vec::new();
        let mut g: usize = 0;
        assert(self@.take(0) =~= Seq::empty());
        while g < self.groups.len()
            invariant
                g <= self.groups.len(),
                owned_guids_view(found@) == guids_among(all_listings(self@.take(g as int)), name@),
            decreases self.groups.len() - g,
        {
            let system = self.groups[g].system;
            let rows = &self.groups[g].rows;
            let ghost done = all_listings(self@.take(g as int));
            let ghost here = listings_of(self@[g as int]);
            assert(self@[g as int] == self.groups[g as int]@);
            assert(done + here.take(0) =~= done);
            let mut i: usize = 0;
            while i < rows.len()
                invariant
                    i <= rows.len(),
                    g < self.groups.len(),
                    system == self@[g as int].system,
                    rows_view(rows@) == self@[g as int].entries,
                    here == listings_of(self@[g as int]),
                    owned_guids_view(found@) == guids_among(done + here.take(i as int), name@),
                decreases rows.len() - i,
            {
                let ghost before = found@;
                assert(rows_view(rows@)[i as int] == self@[g as int].entries[i as int]);
                proof {
                    lemma_guids_among_push(done + here.take(i as int), here[i as int], name@);
                    assert((done + here.take(i as int)).push(here[i as int]) =~= done + here.take(
                        i + 1,
                    ));
                }
                if str_equal(rows[i].0, name) {
                    found.push((system, GUID::new(rows[i].1, system)));
                    assert(owned_guids_view(found@) =~= owned_guids_view(before).push(
                        (system, GuidView { text: rows[i as int].1@, system }),
                    ));
                }
                i = i + 1;
            }
            proof {
                assert(here.take(i as int) =~= here);
                lemma_all_listings_step(self@, g as int);
            }
            g = g + 1;
        }
        assert(self@.take(g as int) =~= self@);
        found
    }

    /// Every entry whose GUID text is `guid_text`, whatever the case of the
    /// letters on either side: the owner of the group and the name, in the
    /// order of the registry. A text that matches nothing gives an empty
    /// list.
    pub fn lookup_by_guid(&self, guid_text: &str) -> (r: Vec<(Option<System>, &'static str)>)
        ensures
            owned_names_view(r@) == names_by_guid(self@, guid_text@),
    {
        let mut found: Vec<(Option<System>, &'static str)> = Vec::new();
        let mut g: usize = 0;
        assert(self@.take(0) =~= Seq::empty());
        while g < self.groups.len()
            invariant
                g <= self.groups.len(),
                owned_names_view(found@) == names_among(
                    all_listings(self@.take(g as int)),
                    guid_text@,
                ),
            decreases self.groups.len() - g,
        {
            let system = self.groups[g].system;
            let rows = &self.groups[g].rows;
            let ghost done = all_listings(self@.take(g as int));
            let ghost here = listings_of(self@[g as int]);
            assert(self@[g as int] == self.groups[g as int]@);
            assert(done + here.take(0) =~= done);
            let mut i: usize = 0;
            while i < rows.len()
                invariant
                    i <= rows.len(),
                    g < self.groups.len(),
                    system == self@[g as int].system,
                    rows_view(rows@) == self@[g as int].entries,
                    here == listings_of(self@[g as int]),
                    owned_names_view(found@) == names_among(done + here.take(i as int), guid_text@),
                decreases rows.len() - i,
            {
                let ghost before = found@;
                assert(rows_view(rows@)[i as int] == self@[g as int].entries[i as int]);
                proof {
                    lemma_names_among_push(done + here.take(i as int), here[i as int], guid_text@);
                    assert((done + here.take(i as int)).push(here[i as int]) =~= done + here.take(
                        i + 1,
                    ));
                }
                if str_equal_ignoring_case(rows[i].1, guid_text) {
                    found.push((system, rows[i].0));
                    assert(owned_names_view(found@) =~= owned_names_view(before).push(
                        (system, rows[i as int].0@),
                    ));
                }
                i = i + 1;
            }
            proof {
                assert(here.take(i as int) =~= here);
                lemma_all_listings_step(self@, g as int);
            }
            g = g + 1;
        }
        assert(self@.take(g as int) =~= self@);
        found
    }
}

} // verus!
