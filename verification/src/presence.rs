//! Who is connected to which room.

use std::collections::HashMap;
use vstd::prelude::*;
use crate::text::names_of;
use crate::text::str_eq;

verus! {

broadcast use vstd::std_specs::hash::group_hash_axioms;

/// A room's roster once `who` has come online: `who` is added at the end
/// unless the roster has it already.
pub open spec fn roster_join(roster: Seq<Seq<char>>, who: Seq<char>) -> Seq<Seq<char>> {
    if roster.contains(who) {
        roster
    } else {
        roster.push(who)
    }
}

/// A room's roster once `who` has gone offline: `who` is taken out and the
/// others keep their order.
pub open spec fn roster_leave(roster: Seq<Seq<char>>, who: Seq<char>) -> Seq<Seq<char>> {
    if roster.contains(who) {
        roster.remove(roster.index_of(who))
    } else {
        roster
    }
}

/// One change of a room's roster: an identity comes online or goes
/// offline.
pub enum RosterChange {
    Online(Seq<char>),
    Offline(Seq<char>),
}

/// A roster after one change.
pub open spec fn roster_apply(roster: Seq<Seq<char>>, change: RosterChange) -> Seq<Seq<char>> {
    match change {
        RosterChange::Online(who) => roster_join(roster, who),
        RosterChange::Offline(who) => roster_leave(roster, who),
    }
}

/// A roster after a series of changes, the first of them first.
pub open spec fn roster_after(roster: Seq<Seq<char>>, changes: Seq<RosterChange>) -> Seq<Seq<char>>
    decreases changes.len(),
{
    if changes.len() == 0 {
        roster
    } else {
        roster_apply(roster_after(roster, changes.drop_last()), changes.last())
    }
}

/// The position of `who` in `members`, if it is there.
fn position(members: &Vec<String>, who: &str) -> (found: Option<usize>)
    ensures
        found is Some <==> names_of(members@).contains(who@),
        found matches Some(i) ==> i < members@.len() && names_of(members@)[i as int] == who@,
{
    let mut i: usize = 0;
    while i < members.len()
        invariant
            i <= members@.len(),
            forall|j: int| 0 <= j < i ==> names_of(members@)[j] != who@,
        decreases members@.len() - i,
    {
        if str_eq(members[i].as_str(), who) {
            assert(names_of(members@)[i as int] == who@);
            return Some(i);
        }
        i += 1;
    }
    None
}

/// The identities that are online, room by room. Each room's identities
/// are kept in the order in which they came online, none of them twice.
pub struct PresenceStore {
    rooms: HashMap<u32, Vec<String>>,
}

impl PresenceStore {
    /// No identity is listed twice in a room.
    pub closed spec fn wf(&self) -> bool {
        forall|room: u32| #[trigger]
            self.rooms@.contains_key(room) ==> names_of(self.rooms@[room]@).no_duplicates()
    }

    /// The identities that are online in `room`, in the order in which they
    /// came online. A room that nobody ever entered has an empty roster.
    pub closed spec fn roster(&self, room: u32) -> Seq<Seq<char>> {
        if self.rooms@.contains_key(room) {
            names_of(self.rooms@[room]@)
        } else {
            Seq::empty()
        }
    }

    /// The set of the identities that are online in `room`.
    pub open spec fn online(&self, room: u32) -> Set<Seq<char>> {
        self.roster(room).to_set()
    }

    /// In a well-formed store no roster lists an identity twice.
    pub proof fn lemma_roster_no_duplicates(&self, room: u32)
        requires
            self.wf(),
        ensures
            self.roster(room).no_duplicates(),
    {
    }

    /// A store in which nobody is online.
    pub fn new() -> (store: PresenceStore)
        ensures
            store.wf(),
            forall|room: u32| store.roster(room) == Seq::<Seq<char>>::empty(),
    {
        PresenceStore { rooms: HashMap::new() }
    }

    /// Marks `identity` as online in `room`.
    pub fn set_online(&mut self, room: u32, identity: String)
        requires
            old(self).wf(),
        ensures
            final(self).wf(),
            final(self).roster(room) == roster_join(old(self).roster(room), identity@),
            final(self).online(room) == old(self).online(room).insert(identity@),
            forall|other: u32| other != room ==> final(self).roster(other) == old(self).roster(other),
    {
        let ghost before = self.rooms@;
        let mut members = match self.rooms.remove(&room) {
            Some(members) => members,
            None => Vec::new(),
        };
        assert(names_of(members@) =~= old(self).roster(room));
        proof {
            lemma_join_keeps_distinct(names_of(members@), identity@);
        }
        if position(&members, identity.as_str()).is_none() {
            let ghost listed = members@;
            members.push(identity);
            assert(names_of(members@) =~= names_of(listed).push(identity@));
        }
        self.rooms.insert(room, members);
        assert forall|other: u32| other != room implies final(self).roster(other) == old(self).roster(
            other,
        ) by {
            assert(self.rooms@.contains_key(other) == before.contains_key(other));
        }
        assert forall|r: u32| #[trigger] self.rooms@.contains_key(r) implies names_of(
            self.rooms@[r]@,
        ).no_duplicates() by {
            if r != room {
                assert(before.contains_key(r));
            }
        }
    }

    /// Marks `identity` as offline in `room`.
    pub fn set_offline(&mut self, room: u32, identity: &str)
        requires
            old(self).wf(),
        ensures
            final(self).wf(),
            final(self).roster(room) == roster_leave(old(self).roster(room), identity@),
            final(self).online(room) == old(self).online(room).remove(identity@),
            !final(self).roster(room).contains(identity@),
            forall|other: u32| other != room ==> final(self).roster(other) == old(self).roster(other),
    {
        let ghost before = self.rooms@;
        let mut members = match self.rooms.remove(&room) {
            Some(members) => members,
            None => Vec::new(),
        };
        let ghost listed = members@;
        assert(names_of(listed) =~= old(self).roster(room));
        assert(names_of(listed).no_duplicates());
        proof {
            lemma_leave_removes(names_of(listed), identity@);
        }
        match position(&members, identity) {
            Some(i) => {
                members.remove(i);
                proof {
                    let roster = names_of(listed);
                    assert(roster.index_of(identity@) == i as int);
                    assert(names_of(members@) =~= roster.remove(i as int));
                }
            },
            None => {},
        }
        self.rooms.insert(room, members);
        assert forall|other: u32| other != room implies final(self).roster(other) == old(self).roster(
            other,
        ) by {
            assert(self.rooms@.contains_key(other) == before.contains_key(other));
        }
        assert forall|r: u32| #[trigger] self.rooms@.contains_key(r) implies names_of(
            self.rooms@[r]@,
        ).no_duplicates() by {
            if r != room {
                assert(before.contains_key(r));
            }
        }
    }

    /// Marks `account` as online or offline in room `room_id`.
    pub fn update_online_status(&mut self, account: String, room_id: u32, is_online: bool)
        requires
            old(self).wf(),
        ensures
            final(self).wf(),
            final(self).roster(room_id) == if is_online {
                roster_join(old(self).roster(room_id), account@)
            } else {
                roster_leave(old(self).roster(room_id), account@)
            },
            final(self).online(room_id) == if is_online {
                old(self).online(room_id).insert(account@)
            } else {
                old(self).online(room_id).remove(account@)
            },
            forall|other: u32|
                other != room_id ==> final(self).roster(other) == old(self).roster(other),
    {
        if is_online {
            self.set_online(room_id, account);
        } else {
            self.set_offline(room_id, account.as_str());
        }
    }

    /// A copy of the identities that are online in `room`, in the order in
    /// which they came online. Later changes of the store do not reach it.
    pub fn snapshot(&self, room: u32) -> (identities: Vec<String>)
        ensures
            names_of(identities@) == self.roster(room),
    {
        let mut identities: Vec<String> = Vec::new();
        match self.rooms.get(&room) {
            Some(members) => {
                let mut i: usize = 0;
                while i < members.len()
                    invariant
                        i <= members@.len(),
                        names_of(identities@) == names_of(members@).take(i as int),
                    decreases members@.len() - i,
                {
                    let ghost copied = identities@;
                    identities.push(members[i].clone());
                    assert(names_of(identities@) =~= names_of(copied).push(members@[i as int]@));
                    assert(names_of(members@).take(i + 1) =~= names_of(members@).take(i as int).push(
                        members@[i as int]@,
                    ));
                    i += 1;
                }
                assert(names_of(members@).take(i as int) =~= names_of(members@));
            },
            None => {
                assert(names_of(identities@) =~= Seq::<Seq<char>>::empty());
            },
        }
        identities
    }
}

/// Taking one entry out of a sequence without repeats leaves no repeats.
proof fn lemma_remove_keeps_distinct(roster: Seq<Seq<char>>, i: int)
    requires
        roster.no_duplicates(),
        0 <= i < roster.len(),
    ensures
        roster.remove(i).no_duplicates(),
{
    let rest = roster.remove(i);
    assert forall|a: int, b: int| 0 <= a < rest.len() && 0 <= b < rest.len() && a != b implies rest[a]
        != rest[b] by {
        let a0 = if a < i { a } else { a + 1 };
        let b0 = if b < i { b } else { b + 1 };
        assert(rest[a] == roster[a0]);
        assert(rest[b] == roster[b0]);
    }
}

/// Once an identity has gone offline the roster does not hold it, whether
/// or not it was online before.
pub proof fn lemma_offline_after_online(roster: Seq<Seq<char>>, who: Seq<char>)
    requires
        roster.no_duplicates(),
    ensures
        !roster_leave(roster_join(roster, who), who).contains(who),
        roster_join(roster, who).no_duplicates(),
        roster_join(roster, who).contains(who),
{
    lemma_join_keeps_distinct(roster, who);
    lemma_leave_removes(roster_join(roster, who), who);
}

/// An identity that went offline after it came online stays offline until
/// it comes online again: whoever else comes or goes in between, the roster
/// does not hold it.
pub proof fn lemma_offline_until_next_online(
    roster: Seq<Seq<char>>,
    who: Seq<char>,
    later: Seq<RosterChange>,
)
    requires
        roster.no_duplicates(),
        forall|i: int| 0 <= i < later.len() ==> later[i] != RosterChange::Online(who),
    ensures
        !roster_after(roster_leave(roster_join(roster, who), who), later).contains(who),
        roster_after(roster_leave(roster_join(roster, who), who), later).no_duplicates(),
    decreases later.len(),
{
    let left = roster_leave(roster_join(roster, who), who);
    lemma_join_keeps_distinct(roster, who);
    lemma_leave_removes(roster_join(roster, who), who);
    if later.len() > 0 {
        let earlier = later.drop_last();
        assert forall|i: int| 0 <= i < earlier.len() implies earlier[i] != RosterChange::Online(
            who,
        ) by {
            assert(earlier[i] == later[i]);
        }
        lemma_offline_until_next_online(roster, who, earlier);
        let before = roster_after(left, earlier);
        match later.last() {
            RosterChange::Online(other) => {
                assert(later[later.len() - 1] != RosterChange::Online(who));
                lemma_join_keeps_distinct(before, other);
            },
            RosterChange::Offline(other) => {
                lemma_leave_removes(before, other);
            },
        }
    }
}

/// A roster without repeats has none after an identity came online.
pub proof fn lemma_join_keeps_distinct(roster: Seq<Seq<char>>, who: Seq<char>)
    requires
        roster.no_duplicates(),
    ensures
        roster_join(roster, who).no_duplicates(),
        roster_join(roster, who).contains(who),
        forall|other: Seq<char>| roster.contains(other) ==> roster_join(roster, who).contains(other),
        forall|other: Seq<char>|
            other != who && roster_join(roster, who).contains(other) ==> roster.contains(other),
        roster_join(roster, who).to_set() == roster.to_set().insert(who),
{
    let joined = roster_join(roster, who);
    if !roster.contains(who) {
        assert(joined[roster.len() as int] == who);
        assert forall|a: int, b: int|
            0 <= a < joined.len() && 0 <= b < joined.len() && a != b implies joined[a]
            != joined[b] by {
            if a < roster.len() {
                assert(roster.contains(joined[a]));
            }
            if b < roster.len() {
                assert(roster.contains(joined[b]));
            }
        }
        assert forall|other: Seq<char>| roster.contains(other) implies joined.contains(other) by {
            let i = roster.index_of(other);
            assert(joined[i] == other);
        }
        assert forall|other: Seq<char>| other != who && joined.contains(other) implies roster.contains(
            other,
        ) by {
            let i = joined.index_of(other);
            assert(roster[i] == other);
        }
    }
    assert(joined.to_set() =~= roster.to_set().insert(who));
}

/// What a sequence holds once the entry at `i` is taken out: the entries
/// at the other places.
proof fn lemma_remove_membership(roster: Seq<Seq<char>>, i: int, other: Seq<char>)
    requires
        0 <= i < roster.len(),
    ensures
        roster.remove(i).contains(other) <==> exists|j: int|
            0 <= j < roster.len() && j != i && roster[j] == other,
{
    let rest = roster.remove(i);
    if rest.contains(other) {
        let j = choose|j: int| 0 <= j < rest.len() && rest[j] == other;
        let j0 = if j < i { j } else { j + 1 };
        assert(0 <= j0 < roster.len() && j0 != i && roster[j0] == other);
    }
    if exists|j: int| 0 <= j < roster.len() && j != i && roster[j] == other {
        let j = choose|j: int| 0 <= j < roster.len() && j != i && roster[j] == other;
        let j0 = if j < i { j } else { j - 1 };
        assert(0 <= j0 < rest.len() && rest[j0] == other);
    }
}

/// In a roster without repeats, going offline removes the identity and
/// nobody else.
pub proof fn lemma_leave_removes(roster: Seq<Seq<char>>, who: Seq<char>)
    requires
        roster.no_duplicates(),
    ensures
        !roster_leave(roster, who).contains(who),
        roster_leave(roster, who).no_duplicates(),
        forall|other: Seq<char>|
            other != who ==> (roster_leave(roster, who).contains(other) <==> roster.contains(other)),
        roster_leave(roster, who).to_set() == roster.to_set().remove(who),
{
    if roster.contains(who) {
        let i = roster.index_of(who);
        assert(0 <= i < roster.len() && roster[i] == who);
        lemma_remove_keeps_distinct(roster, i);
        lemma_remove_membership(roster, i, who);
        assert forall|other: Seq<char>| other != who implies (roster.remove(i).contains(other)
            <==> roster.contains(other)) by {
            lemma_remove_membership(roster, i, other);
            if roster.contains(other) {
                let j = choose|j: int| 0 <= j < roster.len() && roster[j] == other;
                assert(0 <= j < roster.len() && j != i && roster[j] == other);
            }
        }
    }
    assert(roster_leave(roster, who).to_set() =~= roster.to_set().remove(who));
}

} // verus!
