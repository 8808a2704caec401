//! The records of the projects that one issue or pull request touches: the
//! primary project's record and those of the projects linked to it.

use crate::process::info::text_of;
use crate::process::info::ProcessInfo;
use crate::process::info::ProcessInfoView;
use crate::process::lookup::find_named;
use crate::process::lookup::option_view;
use crate::process::lookup::options_view;
use crate::process::lookup::records_view;
use crate::text::contains_ref;
use crate::text::refs_text;
use vstd::prelude::*;

verus! {

/// The record of the primary project, where there is one, and the records of
/// the linked projects in the order they were given.
#[derive(Debug)]
pub struct CombinedProcessInfo {
    pub primary: Option<ProcessInfo>,
    pub linked: Vec<ProcessInfo>,
}

/// The combined records as plain data.
pub struct CombinedView {
    pub primary: Option<ProcessInfoView>,
    pub linked: Seq<ProcessInfoView>,
}

impl View for CombinedProcessInfo {
    type V = CombinedView;

    open spec fn view(&self) -> CombinedView {
        CombinedView { primary: option_view(self.primary), linked: records_view(self.linked@) }
    }
}

/// The records that are there, in order, without the gaps.
pub open spec fn present(records: Seq<Option<ProcessInfoView>>) -> Seq<ProcessInfoView>
    decreases records.len(),
{
    if records.len() == 0 {
        Seq::empty()
    } else {
        let front = present(records.drop_last());
        match records.last() {
            Some(r) => front.push(r),
            None => front,
        }
    }
}

/// The first record is the primary one, whether it is there or not; the
/// records after it that are there are the linked ones.
pub open spec fn combine(records: Seq<Option<ProcessInfoView>>) -> CombinedView {
    if records.len() == 0 {
        CombinedView { primary: None, linked: Seq::empty() }
    } else {
        CombinedView { primary: records[0], linked: present(records.skip(1)) }
    }
}

/// No more records are there than there are places.
pub proof fn lemma_present_is_no_longer(records: Seq<Option<ProcessInfoView>>)
    ensures
        present(records).len() <= records.len(),
    decreases records.len(),
{
    if records.len() > 0 {
        lemma_present_is_no_longer(records.drop_last());
    }
}

/// Who answers for each of `records`.
pub open spec fn owners_of(records: Seq<ProcessInfoView>) -> Seq<Seq<char>> {
    records.map_values(|r: ProcessInfoView| r.owner_or_delegate())
}

/// The chat room of each of `records`.
pub open spec fn room_ids_of(records: Seq<ProcessInfoView>) -> Seq<Seq<char>> {
    records.map_values(|r: ProcessInfoView| r.matrix_room_id)
}

/// Whether `login` is on the whitelist of one of `records`.
pub open spec fn any_whitelists(records: Seq<ProcessInfoView>, login: Seq<char>) -> bool {
    exists|i: int| 0 <= i < records.len() && #[trigger] records[i].is_whitelisted(login)
}

/// The plain data of records held by reference.
pub open spec fn refs_view(records: Seq<&ProcessInfo>) -> Seq<ProcessInfoView> {
    records.map_values(|r: &ProcessInfo| r@)
}

impl CombinedView {
    /// The primary record first, where there is one, then the linked ones.
    pub open spec fn members(self) -> Seq<ProcessInfoView> {
        match self.primary {
            Some(p) => seq![p] + self.linked,
            None => self.linked,
        }
    }

    pub open spec fn primary_owner(self) -> Option<Seq<char>> {
        match self.primary {
            Some(p) => Some(p.owner_or_delegate()),
            None => None,
        }
    }

    pub open spec fn linked_owners(self) -> Seq<Seq<char>> {
        owners_of(self.linked)
    }

    pub open spec fn owners(self) -> Seq<Seq<char>> {
        owners_of(self.members())
    }

    pub open spec fn primary_room_id(self) -> Option<Seq<char>> {
        match self.primary {
            Some(p) => Some(p.matrix_room_id),
            None => None,
        }
    }

    pub open spec fn linked_room_ids(self) -> Seq<Seq<char>> {
        room_ids_of(self.linked)
    }

    pub open spec fn room_ids(self) -> Seq<Seq<char>> {
        room_ids_of(self.members())
    }

    pub open spec fn is_primary_owner(self, login: Seq<char>) -> bool {
        self.primary_owner() == Some(login)
    }

    pub open spec fn is_linked_owner(self, login: Seq<char>) -> bool {
        self.linked_owners().contains(login)
    }

    pub open spec fn is_owner(self, login: Seq<char>) -> bool {
        self.owners().contains(login)
    }

    pub open spec fn is_primary_whitelisted(self, login: Seq<char>) -> bool {
        match self.primary {
            Some(p) => p.is_whitelisted(login),
            None => false,
        }
    }

    pub open spec fn is_linked_whitelisted(self, login: Seq<char>) -> bool {
        any_whitelists(self.linked, login)
    }

    pub open spec fn is_whitelisted(self, login: Seq<char>) -> bool {
        any_whitelists(self.members(), login)
    }

    pub open spec fn is_primary_special(self, login: Seq<char>) -> bool {
        self.is_primary_owner(login) || self.is_primary_whitelisted(login)
    }

    pub open spec fn is_linked_special(self, login: Seq<char>) -> bool {
        self.is_linked_owner(login) || self.is_linked_whitelisted(login)
    }

    pub open spec fn is_special(self, login: Seq<char>) -> bool {
        self.is_owner(login) || self.is_whitelisted(login)
    }
}

/// Each question asked of all the records is the same question asked of the
/// primary record or of the linked ones.
pub proof fn lemma_all_is_primary_or_linked(combined: CombinedView, login: Seq<char>)
    ensures
        combined.is_owner(login) <==> combined.is_primary_owner(login) || combined.is_linked_owner(
            login,
        ),
        combined.is_whitelisted(login) <==> combined.is_primary_whitelisted(login)
            || combined.is_linked_whitelisted(login),
        combined.is_special(login) <==> combined.is_primary_special(login)
            || combined.is_linked_special(login),
{
    let members = combined.members();
    let linked = combined.linked;
    match combined.primary {
        None => {},
        Some(p) => {
            assert(members[0] == p);
            assert forall|i: int| 0 <= i < linked.len() implies members[i + 1] == linked[i] by {}
            if combined.is_linked_owner(login) {
                let i = choose|i: int| 0 <= i < linked.len() && owners_of(linked)[i] == login;
                assert(owners_of(members)[i + 1] == login);
            }
            if combined.is_primary_owner(login) {
                assert(owners_of(members)[0] == login);
            }
            if combined.is_owner(login) {
                let i = choose|i: int| 0 <= i < members.len() && owners_of(members)[i] == login;
                if i > 0 {
                    assert(owners_of(linked)[i - 1] == login);
                }
            }
            if combined.is_linked_whitelisted(login) {
                let i = choose|i: int|
                    0 <= i < linked.len() && #[trigger] linked[i].is_whitelisted(login);
                assert(members[i + 1].is_whitelisted(login));
            }
            if combined.is_primary_whitelisted(login) {
                assert(members[0].is_whitelisted(login));
            }
            if combined.is_whitelisted(login) {
                let i = choose|i: int|
                    0 <= i < members.len() && #[trigger] members[i].is_whitelisted(login);
                if i > 0 {
                    assert(linked[i - 1].is_whitelisted(login));
                }
            }
        },
    }
}

impl Clone for CombinedProcessInfo {
    fn clone(&self) -> (copy: Self)
        ensures
            copy@ == self@,
    {
        let primary = match &self.primary {
            Some(p) => Some(p.clone()),
            None => None,
        };
        let mut linked: Vec<ProcessInfo> = Vec::new();
        let mut i: usize = 0;
        while i < self.linked.len()
            invariant
                i <= self.linked.len(),
                linked@.len() == i,
                forall|j: int| 0 <= j < i ==> linked@[j]@ == self.linked@[j]@,
            decreases self.linked.len() - i,
        {
            linked.push(self.linked[i].clone());
            i += 1;
        }
        assert(records_view(linked@) =~= records_view(self.linked@));
        CombinedProcessInfo { primary, linked }
    }
}

/// The records of a list, each by reference.
fn refs<'a>(records: &'a Vec<ProcessInfo>) -> (found: Vec<&'a ProcessInfo>)
    ensures
        refs_view(found@) == records_view(records@),
{
    let mut found: Vec<&ProcessInfo> = Vec::new();
    let mut i: usize = 0;
    while i < records.len()
        invariant
            i <= records.len(),
            found@.len() == i,
            forall|j: int| 0 <= j < i ==> found@[j]@ == records@[j]@,
        decreases records.len() - i,
    {
        found.push(&records[i]);
        i += 1;
    }
    assert(refs_view(found@) =~= records_view(records@));
    found
}

/// Who answers for each of `records`.
fn owners_among<'a>(records: &Vec<&'a ProcessInfo>) -> (owners: Vec<&'a String>)
    ensures
        refs_text(owners@) == owners_of(refs_view(records@)),
{
    let mut owners: Vec<&String> = Vec::new();
    let mut i: usize = 0;
    while i < records.len()
        invariant
            i <= records.len(),
            owners@.len() == i,
            forall|j: int| 0 <= j < i ==> owners@[j]@ == records@[j]@.owner_or_delegate(),
        decreases records.len() - i,
    {
        owners.push(records[i].owner_or_delegate());
        i += 1;
    }
    assert(refs_text(owners@) =~= owners_of(refs_view(records@)));
    owners
}

/// The chat room of each of `records`.
fn room_ids_among<'a>(records: &Vec<&'a ProcessInfo>) -> (rooms: Vec<&'a String>)
    ensures
        refs_text(rooms@) == room_ids_of(refs_view(records@)),
{
    let mut rooms: Vec<&String> = Vec::new();
    let mut i: usize = 0;
    while i < records.len()
        invariant
            i <= records.len(),
            rooms@.len() == i,
            forall|j: int| 0 <= j < i ==> rooms@[j]@ == records@[j]@.matrix_room_id,
        decreases records.len() - i,
    {
        rooms.push(&records[i].matrix_room_id);
        i += 1;
    }
    assert(refs_text(rooms@) =~= room_ids_of(refs_view(records@)));
    rooms
}

/// Whether `login` is on the whitelist of one of `records`.
fn whitelisted_among(records: &Vec<&ProcessInfo>, login: &str) -> (yes: bool)
    ensures
        yes == any_whitelists(refs_view(records@), login@),
{
    let mut i: usize = 0;
    while i < records.len()
        invariant
            i <= records.len(),
            forall|j: int| 0 <= j < i ==> !refs_view(records@)[j].is_whitelisted(login@),
        decreases records.len() - i,
    {
        if records[i].is_whitelisted(login) {
            assert(refs_view(records@)[i as int].is_whitelisted(login@));
            return true;
        }
        i += 1;
    }
    false
}

impl CombinedProcessInfo {
    /// Combines the records of the projects an issue touches. The first
    /// place is the primary project's, whether its record was found or not;
    /// of the places after it, the records that were found are the linked
    /// ones, in order. No places at all give no records.
    pub fn new(v: Vec<Option<ProcessInfo>>) -> (combined: Self)
        ensures
            combined@ == combine(options_view(v@)),
            combined.countable(),
    {
        let ghost places = v@.len();
        assert(places <= usize::MAX) by {
            assert(v.len() == places);
        }
        let ghost source = options_view(v@);
        let mut primary: Option<ProcessInfo> = None;
        let mut linked: Vec<ProcessInfo> = Vec::new();
        let mut first = true;
        for record in it: v.into_iter()
            invariant
                it.seq() == v@,
                source == options_view(v@),
                first == (it.index() == 0),
                option_view(primary) == (if it.index() > 0 {
                    source[0]
                } else {
                    None
                }),
                records_view(linked@) == (if it.index() > 0 {
                    present(source.subrange(1, it.index() as int))
                } else {
                    Seq::empty()
                }),
        {
            let ghost before = records_view(linked@);
            proof {
                let k = it.index() as int;
                assert(option_view(record) == source[k]);
                if k > 0 {
                    assert(source.subrange(1, k + 1).drop_last() =~= source.subrange(1, k));
                } else {
                    assert(source.subrange(1, 1) =~= Seq::empty());
                }
            }
            if first {
                primary = record;
                first = false;
            } else {
                match record {
                    Some(r) => {
                        linked.push(r);
                        assert(records_view(linked@) =~= before.push(r@));
                    },
                    None => {},
                }
            }
        }
        proof {
            if source.len() > 0 {
                assert(source.subrange(1, source.len() as int) =~= source.skip(1));
                lemma_present_is_no_longer(source.skip(1));
            }
        }
        CombinedProcessInfo { primary, linked }
    }

    /// Whether the records are few enough to be counted.
    pub open spec fn countable(&self) -> bool {
        self@.members().len() <= usize::MAX
    }

    /// How many records there are.
    pub fn len(&self) -> (count: usize)
        requires
            self.countable(),
        ensures
            count == self@.members().len(),
    {
        match &self.primary {
            Some(_) => 1 + self.linked.len(),
            None => self.linked.len(),
        }
    }

    /// Whether there is no record at all.
    pub fn is_empty(&self) -> (yes: bool)
        ensures
            yes == (self@.members().len() == 0),
    {
        self.primary.is_none() && self.linked.len() == 0
    }

    /// Whether the primary project has a record.
    pub fn has_primary(&self) -> (yes: bool)
        ensures
            yes == self@.primary is Some,
    {
        self.primary.is_some()
    }

    /// Whether a linked project has a record.
    pub fn has_linked(&self) -> (yes: bool)
        ensures
            yes == (self@.linked.len() > 0),
    {
        self.linked.len() != 0
    }

    /// All the records: the primary one first, then the linked ones.
    pub fn iter(&self) -> (members: Vec<&ProcessInfo>)
        ensures
            refs_view(members@) == self@.members(),
    {
        let mut members: Vec<&ProcessInfo> = Vec::new();
        match &self.primary {
            Some(p) => {
                members.push(p);
            },
            None => {},
        }
        let ghost offset = members@.len();
        let mut i: usize = 0;
        while i < self.linked.len()
            invariant
                i <= self.linked.len(),
                offset == (if self.primary is Some {
                    1nat
                } else {
                    0nat
                }),
                members@.len() == offset + i,
                self.primary matches Some(p) ==> members@[0]@ == p@,
                forall|j: int| 0 <= j < i ==> members@[offset + j]@ == self.linked@[j]@,
            decreases self.linked.len() - i,
        {
            members.push(&self.linked[i]);
            i += 1;
        }
        assert(refs_view(members@) =~= self@.members());
        members
    }

    /// The first record, the primary one first, whose project is named
    /// `project_name`.
    pub fn get(&self, project_name: &str) -> (found: Option<&ProcessInfo>)
        ensures
            option_view(
                match found {
                    Some(r) => Some(*r),
                    None => None,
                },
            ) == find_named(self@.members(), project_name@),
    {
        let members = self.iter();
        let ghost records = self@.members();
        let mut i: usize = 0;
        assert(records.skip(0) =~= records);
        while i < members.len()
            invariant
                i <= members.len(),
                records == self@.members(),
                records == refs_view(members@),
                find_named(records, project_name@) == find_named(
                    records.skip(i as int),
                    project_name@,
                ),
            decreases members.len() - i,
        {
            let ghost rest = records.skip(i as int);
            assert(rest[0] == members@[i as int]@);
            if members[i].project_name.as_str().eq(project_name) {
                return Some(members[i]);
            }
            assert(rest.skip(1) =~= records.skip(i as int + 1));
            i += 1;
        }
        None
    }

    /// Who answers for the primary project: its delegate where one is set,
    /// else its owner.
    pub fn primary_owner(&self) -> (owner: Option<String>)
        ensures
            text_of(owner) == self@.primary_owner(),
    {
        match &self.primary {
            Some(p) => Some(p.owner_or_delegate().clone()),
            None => None,
        }
    }

    /// Who answers for each linked project, in order.
    pub fn iter_linked_owners(&self) -> (owners: Vec<&String>)
        ensures
            refs_text(owners@) == self@.linked_owners(),
    {
        owners_among(&refs(&self.linked))
    }

    /// Who answers for each project, the primary one first.
    pub fn iter_owners(&self) -> (owners: Vec<&String>)
        ensures
            refs_text(owners@) == self@.owners(),
    {
        owners_among(&self.iter())
    }

    /// The chat room of the primary project.
    pub fn primary_room_id(&self) -> (room: Option<String>)
        ensures
            text_of(room) == self@.primary_room_id(),
    {
        match &self.primary {
            Some(p) => Some(p.matrix_room_id.clone()),
            None => None,
        }
    }

    /// The chat room of each linked project, in order.
    pub fn iter_linked_room_ids(&self) -> (rooms: Vec<&String>)
        ensures
            refs_text(rooms@) == self@.linked_room_ids(),
    {
        room_ids_among(&refs(&self.linked))
    }

    /// The chat room of each project, the primary one first.
    pub fn iter_room_ids(&self) -> (rooms: Vec<&String>)
        ensures
            refs_text(rooms@) == self@.room_ids(),
    {
        room_ids_among(&self.iter())
    }

    /// Whether `login` answers for the primary project.
    pub fn is_primary_owner(&self, login: &str) -> (yes: bool)
        ensures
            yes == self@.is_primary_owner(login@),
    {
        match &self.primary {
            Some(p) => p.owner_or_delegate().as_str().eq(login),
            None => false,
        }
    }

    /// Whether `login` answers for a linked project.
    pub fn is_linked_owner(&self, login: &str) -> (yes: bool)
        ensures
            yes == self@.is_linked_owner(login@),
    {
        contains_ref(&self.iter_linked_owners(), login)
    }

    /// Whether `login` answers for any of the projects.
    pub fn is_owner(&self, login: &str) -> (yes: bool)
        ensures
            yes == self@.is_owner(login@),
    {
        contains_ref(&self.iter_owners(), login)
    }

    /// Whether `login` is on the primary project's whitelist.
    pub fn is_primary_whitelisted(&self, login: &str) -> (yes: bool)
        ensures
            yes == self@.is_primary_whitelisted(login@),
    {
        match &self.primary {
            Some(p) => p.is_whitelisted(login),
            None => false,
        }
    }

    /// Whether `login` is on the whitelist of a linked project.
    pub fn is_linked_whitelisted(&self, login: &str) -> (yes: bool)
        ensures
            yes == self@.is_linked_whitelisted(login@),
    {
        whitelisted_among(&refs(&self.linked), login)
    }

    /// Whether `login` is on the whitelist of any of the projects.
    pub fn is_whitelisted(&self, login: &str) -> (yes: bool)
        ensures
            yes == self@.is_whitelisted(login@),
    {
        whitelisted_among(&self.iter(), login)
    }

    /// Whether `login` answers for the primary project or is on its
    /// whitelist.
    pub fn is_primary_special(&self, login: &str) -> (yes: bool)
        ensures
            yes == self@.is_primary_special(login@),
    {
        self.is_primary_owner(login) || self.is_primary_whitelisted(login)
    }

    /// Whether `login` answers for a linked project or is on the whitelist
    /// of one.
    pub fn is_linked_special(&self, login: &str) -> (yes: bool)
        ensures
            yes == self@.is_linked_special(login@),
    {
        self.is_linked_owner(login) || self.is_linked_whitelisted(login)
    }

    /// Whether `login` answers for any of the projects or is on the
    /// whitelist of one.
    pub fn is_special(&self, login: &str) -> (yes: bool)
        ensures
            yes == self@.is_special(login@),
    {
        self.is_owner(login) || self.is_whitelisted(login)
    }
}

} // verus!
