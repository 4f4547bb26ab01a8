//! A caller's view of the server: the rooms it knows and the direct
//! rooms it has opened, keyed by the peer's user name.

use vstd::prelude::*;
use crate::schema::{spec_room_id, Room};
use crate::wire::string_eq;

verus! {

/// Does the room carry this name? Only chat and private rooms have one.
pub open spec fn spec_room_has_name(r: Room, name: Seq<char>) -> bool {
    match r {
        Room::Chat { name: n, .. } => n@ == name,
        Room::Private { name: n, .. } => n@ == name,
        _ => false,
    }
}

/// Index of the first room with this id, if any.
pub open spec fn spec_find_by_id(rooms: Seq<Room>, id: Seq<char>) -> Option<int>
    decreases rooms.len(),
{
    if rooms.len() == 0 {
        None
    } else if spec_room_id(rooms[0])@ == id {
        Some(0int)
    } else {
        match spec_find_by_id(rooms.drop_first(), id) {
            Some(i) => Some(i + 1),
            None => None,
        }
    }
}

/// Index of the first room with this name, if any.
pub open spec fn spec_find_by_name(rooms: Seq<Room>, name: Seq<char>) -> Option<int>
    decreases rooms.len(),
{
    if rooms.len() == 0 {
        None
    } else if spec_room_has_name(rooms[0], name) {
        Some(0int)
    } else {
        match spec_find_by_name(rooms.drop_first(), name) {
            Some(i) => Some(i + 1),
            None => None,
        }
    }
}

/// What the find-by-id index says about the rooms.
pub proof fn lemma_find_by_id(rooms: Seq<Room>, id: Seq<char>)
    ensures
        match spec_find_by_id(rooms, id) {
            Some(i) => {
                &&& 0 <= i < rooms.len()
                &&& spec_room_id(rooms[i])@ == id
                &&& forall|j: int| 0 <= j < i ==> spec_room_id(#[trigger] rooms[j])@ != id
            },
            None => forall|j: int|
                0 <= j < rooms.len() ==> spec_room_id(#[trigger] rooms[j])@ != id,
        },
    decreases rooms.len(),
{
    if rooms.len() > 0 && spec_room_id(rooms[0])@ != id {
        lemma_find_by_id(rooms.drop_first(), id);
        assert(forall|j: int|
            0 < j < rooms.len() ==> #[trigger] rooms[j] == rooms.drop_first()[j - 1]);
    }
}

/// What the find-by-name index says about the rooms.
pub proof fn lemma_find_by_name(rooms: Seq<Room>, name: Seq<char>)
    ensures
        match spec_find_by_name(rooms, name) {
            Some(i) => {
                &&& 0 <= i < rooms.len()
                &&& spec_room_has_name(rooms[i], name)
                &&& forall|j: int| 0 <= j < i ==> !spec_room_has_name(#[trigger] rooms[j], name)
            },
            None => forall|j: int|
                0 <= j < rooms.len() ==> !spec_room_has_name(#[trigger] rooms[j], name),
        },
    decreases rooms.len(),
{
    if rooms.len() > 0 && !spec_room_has_name(rooms[0], name) {
        lemma_find_by_name(rooms.drop_first(), name);
        assert(forall|j: int|
            0 < j < rooms.len() ==> #[trigger] rooms[j] == rooms.drop_first()[j - 1]);
    }
}

/// What a messaging target denotes: a channel by name, or a user for a
/// direct room.
#[derive(Debug, PartialEq, Eq)]
pub enum Target {
    Channel(String),
    User(String),
}

/// Reads a target argument: `#name` names a channel, anything else a
/// user.
pub fn parse_target(target: &str) -> (r: Target)
    ensures
        match r {
            Target::Channel(name) => target@.len() >= 1 && target@[0] == '#' && name@ == target@.skip(
                1,
            ),
            Target::User(name) => (target@.len() == 0 || target@[0] != '#') && name@ == target@,
        },
{
    let len = target.unicode_len();
    if len >= 1 && target.get_char(0) == '#' {
        let name = target.substring_char(1, len).to_owned();
        proof {
            assert(target@.subrange(1, len as int) =~= target@.skip(1));
        }
        Target::Channel(name)
    } else {
        Target::User(target.to_owned())
    }
}

/// The session: the known rooms and the direct rooms by peer name.
#[derive(Debug)]
pub struct Session {
    rooms: Vec<Room>,
    directs: Vec<(String, String)>,
}

impl Session {
    /// The rooms the session knows.
    pub closed spec fn spec_rooms(&self) -> Seq<Room> {
        self.rooms@
    }

    /// The direct-room table: peer name to room id, one entry per peer.
    pub closed spec fn spec_directs(&self) -> Seq<(String, String)> {
        self.directs@
    }

    /// Each peer has at most one direct room.
    pub open spec fn wf(&self) -> bool {
        forall|j: int, k: int|
            0 <= j < k < self.spec_directs().len() ==> self.spec_directs()[j].0@
                != self.spec_directs()[k].0@
    }

    /// A session over the given rooms, with no direct rooms yet.
    pub fn new(rooms: Vec<Room>) -> (r: Session)
        ensures
            r.spec_rooms() == rooms@,
            r.spec_directs().len() == 0,
            r.wf(),
    {
        Session { rooms, directs: Vec::new() }
    }

    /// The rooms the session knows.
    pub fn rooms(&self) -> (r: &Vec<Room>)
        ensures
            r@ == self.spec_rooms(),
    {
        &self.rooms
    }

    /// The first room with this id, if the session knows one.
    pub fn room_by_id(&self, id: &str) -> (r: Option<&Room>)
        ensures
            match r {
                Some(room) => {
                    &&& spec_find_by_id(self.spec_rooms(), id@) matches Some(i)
                    &&& *room == self.spec_rooms()[i]
                },
                None => spec_find_by_id(self.spec_rooms(), id@) is None,
            },
    {
        let mut i: usize = 0;
        while i < self.rooms.len()
            invariant
                i <= self.rooms.len(),
                forall|j: int| 0 <= j < i ==> spec_room_id(#[trigger] self.rooms@[j])@ != id@,
            decreases self.rooms.len() - i,
        {
            let rid = self.rooms[i].id();
            if crate::wire::string_eq(&rid.to_owned(), id) {
                proof {
                    lemma_find_by_id(self.rooms@, id@);
                }
                return Some(&self.rooms[i]);
            }
            i += 1;
        }
        proof {
            lemma_find_by_id(self.rooms@, id@);
        }
        None
    }

    /// The first chat or private room with this name, if any.
    pub fn room_by_name(&self, name: &str) -> (r: Option<&Room>)
        ensures
            match r {
                Some(room) => {
                    &&& spec_find_by_name(self.spec_rooms(), name@) matches Some(i)
                    &&& *room == self.spec_rooms()[i]
                },
                None => spec_find_by_name(self.spec_rooms(), name@) is None,
            },
    {
        let mut i: usize = 0;
        while i < self.rooms.len()
            invariant
                i <= self.rooms.len(),
                forall|j: int| 0 <= j < i ==> !spec_room_has_name(#[trigger] self.rooms@[j], name@),
            decreases self.rooms.len() - i,
        {
            let matches_name = match &self.rooms[i] {
                Room::Chat { name: n, .. } => string_eq(n, name),
                Room::Private { name: n, .. } => string_eq(n, name),
                _ => false,
            };
            if matches_name {
                proof {
                    lemma_find_by_name(self.rooms@, name@);
                }
                return Some(&self.rooms[i]);
            }
            i += 1;
        }
        proof {
            lemma_find_by_name(self.rooms@, name@);
        }
        None
    }

    /// The id of the direct room already opened with this peer, if any.
    pub fn direct_room_id(&self, user: &str) -> (r: Option<&String>)
        ensures
            match r {
                Some(id) => exists|j: int|
                    0 <= j < self.spec_directs().len() && #[trigger] self.spec_directs()[j].0@
                        == user@ && self.spec_directs()[j].1 == *id,
                None => forall|j: int|
                    0 <= j < self.spec_directs().len() ==> #[trigger] self.spec_directs()[j].0@
                        != user@,
            },
    {
        let mut i: usize = 0;
        while i < self.directs.len()
            invariant
                i <= self.directs.len(),
                forall|j: int| 0 <= j < i ==> #[trigger] self.directs@[j].0@ != user@,
            decreases self.directs.len() - i,
        {
            if string_eq(&self.directs[i].0, user) {
                proof {
                    assert(self.spec_directs()[i as int].0@ == user@);
                }
                return Some(&self.directs[i].1);
            }
            i += 1;
        }
        None
    }

    /// Remembers a freshly created direct room with this peer and adds
    /// it to the known rooms.
    pub fn register_direct(&mut self, user: String, room: Room)
        requires
            old(self).wf(),
            forall|j: int|
                0 <= j < old(self).spec_directs().len() ==> #[trigger] old(
                    self,
                ).spec_directs()[j].0@ != user@,
        ensures
            final(self).wf(),
            final(self).spec_rooms() == old(self).spec_rooms().push(room),
            final(self).spec_directs().len() == old(self).spec_directs().len() + 1,
            final(self).spec_directs().take(old(self).spec_directs().len() as int) == old(
                self,
            ).spec_directs(),
            final(self).spec_directs().last().0 == user,
            final(self).spec_directs().last().1@ == spec_room_id(room)@,
    {
        let rid: String = room.id().to_owned();
        self.directs.push((user, rid));
        self.rooms.push(room);
        proof {
            assert(self.spec_directs().take(old(self).spec_directs().len() as int) =~= old(
                self,
            ).spec_directs());
            assert forall|j: int, k: int|
                0 <= j < k < self.spec_directs().len() implies self.spec_directs()[j].0@
                != self.spec_directs()[k].0@ by {
                if k < old(self).spec_directs().len() {
                    assert(old(self).spec_directs()[j].0@ != old(self).spec_directs()[k].0@);
                } else {
                    assert(old(self).spec_directs()[j].0@ != self.spec_directs()[k].0@);
                }
            }
        }
    }
}

} // verus!
