use vstd::prelude::*;

verus! {

use crate::error::Error;
use crate::models::BookRoomPayload;
use crate::models::CreateRoomPayload;
use crate::models::DeleteRoomPayload;
use crate::models::GetRoomByNumberPayload;
use crate::models::Room;
use crate::models::RoomState;
use crate::models::RoomV;
use crate::models::UnbookRoomPayload;
use crate::models::User;
use crate::models::new_room_v;

/// The registry of all rooms, keyed by room number. Room numbers are
/// unique; the backing list keeps rooms in creation order.
pub struct Registry {
    pub rooms: Vec<Room>,
}

/// Registry well-formedness: every room is well formed and no two rooms
/// share a number.
pub open spec fn registry_wf(s: Seq<RoomV>) -> bool {
    &&& (forall|i: int| 0 <= i < s.len() ==> s[i].wf())
    &&& (forall|i: int, j: int| 0 <= i < j < s.len() ==> s[i].no != s[j].no)
}

/// Whether the registry holds a room with this number.
pub open spec fn has_no(s: Seq<RoomV>, number: u64) -> bool {
    exists|i: int| 0 <= i < s.len() && s[i].no == number
}

/// The position of the room with this number. Under `registry_wf` the
/// numbers are unique, so when `has_no` holds the position is unique.
pub open spec fn idx_of(s: Seq<RoomV>, number: u64) -> int {
    choose|i: int| 0 <= i < s.len() && s[i].no == number
}

/// What creating a room does: rejected when the number is taken, otherwise
/// the fresh room is appended with the caller as owner.
pub open spec fn create_outcome(
    s: Seq<RoomV>,
    number: u64,
    capacity: u64,
    price_per_occupant: u64,
    caller: Seq<char>,
) -> Result<Seq<RoomV>, Error> {
    if has_no(s, number) {
        Err(Error::RoomAlreadyExists)
    } else {
        Ok(s.push(new_room_v(number, capacity, price_per_occupant, caller)))
    }
}

/// What booking a room does, checks in operation order: the room must
/// exist and not be full, the submitted price must match the room's price
/// exactly (below is `InsufficientPrice`, above is `Overspent`), there
/// must be a free place, and the caller must not already occupy the room.
pub open spec fn book_outcome(
    s: Seq<RoomV>,
    number: u64,
    price: u64,
    caller: Seq<char>,
) -> Result<Seq<RoomV>, Error> {
    if !has_no(s, number) {
        Err(Error::RoomNotFound)
    } else {
        let i = idx_of(s, number);
        let room = s[i];
        if room.state == RoomState::Full {
            Err(Error::RoomFull)
        } else if price < room.price_per_occupant {
            Err(Error::InsufficientPrice)
        } else if price > room.price_per_occupant {
            Err(Error::Overspent)
        } else if room.occupants.len() == room.capacity {
            Err(Error::RoomFull)
        } else if room.has(caller) {
            Err(Error::RoomAlreadyBooked)
        } else {
            Ok(s.update(i, room.with_booking(caller)))
        }
    }
}

/// What unbooking a room does: the room must exist and the caller must
/// currently occupy it.
pub open spec fn unbook_outcome(s: Seq<RoomV>, number: u64, caller: Seq<char>) -> Result<
    Seq<RoomV>,
    Error,
> {
    if !has_no(s, number) {
        Err(Error::RoomNotFound)
    } else {
        let i = idx_of(s, number);
        let room = s[i];
        if !room.has(caller) {
            Err(Error::NotInRoom)
        } else {
            Ok(s.update(i, room.without_booking(caller)))
        }
    }
}

/// What deleting a room does: the room must exist and only its owner may
/// remove it.
pub open spec fn delete_outcome(s: Seq<RoomV>, number: u64, caller: Seq<char>) -> Result<
    Seq<RoomV>,
    Error,
> {
    if !has_no(s, number) {
        Err(Error::RoomNotFound)
    } else {
        let i = idx_of(s, number);
        if s[i].owner != caller {
            Err(Error::NotOwner)
        } else {
            Ok(s.remove(i))
        }
    }
}

/// In a well-formed registry, a room's position determines `idx_of` for
/// its number.
pub proof fn lemma_idx_of_unique(s: Seq<RoomV>, i: int)
    requires
        registry_wf(s),
        0 <= i < s.len(),
    ensures
        has_no(s, s[i].no),
        idx_of(s, s[i].no) == i,
{
    assert(has_no(s, s[i].no));
    let j = idx_of(s, s[i].no);
    if j < i {
        assert(s[j].no != s[i].no);
    }
    if i < j {
        assert(s[i].no != s[j].no);
    }
}

/// Replacing a room by a well-formed room with the same number preserves
/// registry well-formedness.
proof fn lemma_wf_update(s: Seq<RoomV>, i: int, room: RoomV)
    requires
        registry_wf(s),
        0 <= i < s.len(),
        room.wf(),
        room.no == s[i].no,
    ensures
        registry_wf(s.update(i, room)),
{
}

/// Removing a room preserves registry well-formedness.
proof fn lemma_wf_remove(s: Seq<RoomV>, i: int)
    requires
        registry_wf(s),
        0 <= i < s.len(),
    ensures
        registry_wf(s.remove(i)),
{
    let t = s.remove(i);
    assert forall|a: int| 0 <= a < t.len() implies t[a].wf() by {
        if a < i {
            assert(t[a] == s[a]);
        } else {
            assert(t[a] == s[a + 1]);
        }
    }
    assert forall|a: int, b: int| 0 <= a < b < t.len() implies t[a].no != t[b].no by {
        let a0 = if a < i { a } else { a + 1 };
        let b0 = if b < i { b } else { b + 1 };
        assert(t[a] == s[a0]);
        assert(t[b] == s[b0]);
        assert(s[a0].no != s[b0].no);
    }
}

impl View for Registry {
    type V = Seq<RoomV>;

    open spec fn view(&self) -> Seq<RoomV> {
        self.rooms@.map_values(|r: Room| r@)
    }
}

impl Registry {
    /// An empty registry; the store is initialized once at startup.
    pub fn new() -> (r: Self)
        ensures
            r@ == Seq::<RoomV>::empty(),
            registry_wf(r@),
    {
        let r = Registry { rooms: Vec::new() };
        proof {
            assert(r@ =~= Seq::<RoomV>::empty());
        }
        r
    }

    /// The first position of the room with this number, if any.
    fn find_room(&self, number: u64) -> (r: Option<usize>)
        ensures
            match r {
                Some(i) => i < self@.len() && self@[i as int].no == number,
                None => !has_no(self@, number),
            },
    {
        let mut i: usize = 0;
        while i < self.rooms.len()
            invariant
                i <= self.rooms.len(),
                forall|j: int| 0 <= j < i ==> self@[j].no != number,
            decreases self.rooms.len() - i,
        {
            if self.rooms[i].no == number {
                return Some(i);
            }
            i += 1;
        }
        None
    }

    /// A snapshot of all rooms, in creation order; the registry is left
    /// untouched.
    pub fn get_rooms(&self) -> (r: Vec<Room>)
        ensures
            r@.len() == self@.len(),
            forall|i: int| 0 <= i < r@.len() ==> r@[i]@ == self@[i],
    {
        let mut out: Vec<Room> = Vec::new();
        let mut i: usize = 0;
        while i < self.rooms.len()
            invariant
                i <= self.rooms.len(),
                out@.len() == i,
                forall|j: int| 0 <= j < i ==> out@[j]@ == self@[j],
            decreases self.rooms.len() - i,
        {
            out.push(self.rooms[i].clone());
            i += 1;
        }
        out
    }

    /// A copy of the room with the requested number, or `RoomNotFound`.
    pub fn get_room_by_number(&self, payload: GetRoomByNumberPayload) -> (r: Result<Room, Error>)
        requires
            registry_wf(self@),
        ensures
            match r {
                Ok(room) => has_no(self@, payload.number) && room@ == self@[idx_of(
                    self@,
                    payload.number,
                )],
                Err(e) => !has_no(self@, payload.number) && e == Error::RoomNotFound,
            },
    {
        match self.find_room(payload.number) {
            Some(i) => {
                proof {
                    lemma_idx_of_unique(self@, i as int);
                }
                Ok(self.rooms[i].clone())
            },
            None => Err(Error::RoomNotFound),
        }
    }

    /// Creates a room owned by the caller, unless the number is taken.
    pub fn create_room(&mut self, payload: CreateRoomPayload, caller: User) -> (r: Result<
        String,
        Error,
    >)
        requires
            registry_wf(old(self)@),
        ensures
            registry_wf(final(self)@),
            match r {
                Ok(msg) => create_outcome(
                    old(self)@,
                    payload.number,
                    payload.capacity,
                    payload.price_per_occupant,
                    caller@,
                ) == Ok::<Seq<RoomV>, Error>(final(self)@) && msg@
                    == "Room created successfully!"@,
                Err(e) => create_outcome(
                    old(self)@,
                    payload.number,
                    payload.capacity,
                    payload.price_per_occupant,
                    caller@,
                ) == Err::<Seq<RoomV>, Error>(e) && final(self)@ == old(self)@,
            },
    {
        let room = Room::new(payload.number, payload.capacity, payload.price_per_occupant, caller);
        match self.find_room(room.no) {
            Some(_) => Err(Error::RoomAlreadyExists),
            None => {
                self.rooms.push(room);
                proof {
                    assert(self@ =~= old(self)@.push(
                        new_room_v(
                            payload.number,
                            payload.capacity,
                            payload.price_per_occupant,
                            caller@,
                        ),
                    ));
                }
                Ok("Room created successfully!".to_owned())
            },
        }
    }

    /// Books the caller into the room, against an exact price match.
    pub fn book_room(&mut self, payload: BookRoomPayload, caller: User) -> (r: Result<
        String,
        Error,
    >)
        requires
            registry_wf(old(self)@),
        ensures
            registry_wf(final(self)@),
            match r {
                Ok(msg) => book_outcome(old(self)@, payload.number, payload.price, caller@)
                    == Ok::<Seq<RoomV>, Error>(final(self)@) && msg@
                    == "Room successfully booked"@,
                Err(e) => book_outcome(old(self)@, payload.number, payload.price, caller@)
                    == Err::<Seq<RoomV>, Error>(e) && final(self)@ == old(self)@,
            },
    {
        let idx = match self.find_room(payload.number) {
            Some(i) => i,
            None => {
                return Err(Error::RoomNotFound);
            },
        };
        proof {
            lemma_idx_of_unique(self@, idx as int);
        }
        if self.rooms[idx].state == RoomState::Full {
            return Err(Error::RoomFull);
        }
        if payload.price < self.rooms[idx].price_per_occupant {
            return Err(Error::InsufficientPrice);
        }
        if payload.price > self.rooms[idx].price_per_occupant {
            return Err(Error::Overspent);
        }
        let mut room = self.rooms.remove(idx);
        let res = room.add_occupant(caller);
        let ghost new_view = room@;
        self.rooms.insert(idx, room);
        match res {
            Ok(_) => {
                proof {
                    assert(self@ =~= old(self)@.update(idx as int, new_view));
                    lemma_wf_update(old(self)@, idx as int, new_view);
                }
                Ok("Room successfully booked".to_owned())
            },
            Err(err) => {
                proof {
                    assert(self@ =~= old(self)@);
                }
                Err(err)
            },
        }
    }

    /// Removes the caller from the room's occupants.
    pub fn unbook_room(&mut self, payload: UnbookRoomPayload, caller: User) -> (r: Result<
        String,
        Error,
    >)
        requires
            registry_wf(old(self)@),
        ensures
            registry_wf(final(self)@),
            match r {
                Ok(msg) => unbook_outcome(old(self)@, payload.number, caller@) == Ok::<
                    Seq<RoomV>,
                    Error,
                >(final(self)@) && msg@ == "Room unbooked successfully!"@,
                Err(e) => unbook_outcome(old(self)@, payload.number, caller@) == Err::<
                    Seq<RoomV>,
                    Error,
                >(e) && final(self)@ == old(self)@,
            },
    {
        let idx = match self.find_room(payload.number) {
            Some(i) => i,
            None => {
                return Err(Error::RoomNotFound);
            },
        };
        proof {
            lemma_idx_of_unique(self@, idx as int);
        }
        let mut room = self.rooms.remove(idx);
        let res = room.remove_occupant(caller);
        let ghost new_view = room@;
        self.rooms.insert(idx, room);
        match res {
            Ok(_) => {
                proof {
                    assert(self@ =~= old(self)@.update(idx as int, new_view));
                    lemma_wf_update(old(self)@, idx as int, new_view);
                }
                Ok("Room unbooked successfully!".to_owned())
            },
            Err(_) => {
                proof {
                    assert(self@ =~= old(self)@);
                }
                Err(Error::NotInRoom)
            },
        }
    }

    /// Deletes the room; only its owner may.
    pub fn delete_room(&mut self, payload: DeleteRoomPayload, caller: User) -> (r: Result<
        String,
        Error,
    >)
        requires
            registry_wf(old(self)@),
        ensures
            registry_wf(final(self)@),
            match r {
                Ok(msg) => delete_outcome(old(self)@, payload.number, caller@) == Ok::<
                    Seq<RoomV>,
                    Error,
                >(final(self)@) && msg@ == "Room deleted successfully!"@,
                Err(e) => delete_outcome(old(self)@, payload.number, caller@) == Err::<
                    Seq<RoomV>,
                    Error,
                >(e) && final(self)@ == old(self)@,
            },
    {
        let idx = match self.find_room(payload.number) {
            Some(i) => i,
            None => {
                return Err(Error::RoomNotFound);
            },
        };
        proof {
            lemma_idx_of_unique(self@, idx as int);
        }
        if self.rooms[idx].owner == caller {
            self.rooms.remove(idx);
            proof {
                assert(self@ =~= old(self)@.remove(idx as int));
                lemma_wf_remove(old(self)@, idx as int);
            }
            Ok("Room deleted successfully!".to_owned())
        } else {
            Err(Error::NotOwner)
        }
    }
}

/// Creating a room succeeds at most once per number: a successful creation
/// grows the registry by exactly one room, and a second creation with the
/// same number fails with `RoomAlreadyExists`, whatever its capacity and
/// price.
pub proof fn lemma_create_room_twice(
    s: Seq<RoomV>,
    s1: Seq<RoomV>,
    number: u64,
    capacity: u64,
    price_per_occupant: u64,
    first: Seq<char>,
    capacity2: u64,
    price_per_occupant2: u64,
    second: Seq<char>,
)
    requires
        create_outcome(s, number, capacity, price_per_occupant, first) == Ok::<Seq<RoomV>, Error>(
            s1,
        ),
    ensures
        s1.len() == s.len() + 1,
        create_outcome(s1, number, capacity2, price_per_occupant2, second) == Err::<
            Seq<RoomV>,
            Error,
        >(Error::RoomAlreadyExists),
{
    assert(s1[s.len() as int].no == number);
    assert(has_no(s1, number));
}

/// A created room is found again under its number, exactly as created:
/// vacant, without occupants, with the requested capacity and price, and
/// with its creator as owner.
pub proof fn lemma_create_then_lookup(
    s: Seq<RoomV>,
    s1: Seq<RoomV>,
    number: u64,
    capacity: u64,
    price_per_occupant: u64,
    owner: Seq<char>,
)
    requires
        registry_wf(s),
        create_outcome(s, number, capacity, price_per_occupant, owner) == Ok::<Seq<RoomV>, Error>(
            s1,
        ),
    ensures
        registry_wf(s1),
        has_no(s1, number),
        s1[idx_of(s1, number)] == new_room_v(number, capacity, price_per_occupant, owner),
{
    assert(s1[s.len() as int] == new_room_v(number, capacity, price_per_occupant, owner));
    assert(registry_wf(s1));
    lemma_idx_of_unique(s1, s.len() as int);
}

} // verus!


