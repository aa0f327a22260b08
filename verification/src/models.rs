use vstd::prelude::*;

verus! {

use crate::error::Error;

/// A caller identity: an opaque string supplied by the surrounding
/// execution environment. Two equal strings denote the same user.
#[derive(Debug)]
pub struct User(pub String);

impl View for User {
    type V = Seq<char>;

    open spec fn view(&self) -> Seq<char> {
        self.0@
    }
}

impl Clone for User {
    fn clone(&self) -> (r: Self)
        ensures
            r == *self,
    {
        User(self.0.clone())
    }
}

impl PartialEq for User {
    fn eq(&self, other: &Self) -> (r: bool) {
        self.0 == other.0
    }
}

impl vstd::std_specs::cmp::PartialEqSpecImpl for User {
    open spec fn obeys_eq_spec() -> bool {
        true
    }

    open spec fn eq_spec(&self, other: &Self) -> bool {
        self@ == other@
    }
}

/// A transparent wrapper around `Vec`; it holds a room's occupants.
#[derive(Debug)]
pub struct CustomVec<T>(pub Vec<T>);

/// The derived occupancy state of a room. It is never set independently:
/// every mutation of the occupant list recomputes it.
#[derive(Clone, Copy, PartialEq, Eq, Structural, Debug)]
pub enum RoomState {
    Full,
    PartiallyOccupied,
    TotallyVacant,
}

/// The state a room must carry when it holds `count` occupants out of
/// `capacity` places: vacant at zero, full at capacity, and partially
/// occupied in between. (A room of capacity zero counts as vacant.)
pub open spec fn state_for(count: int, capacity: int) -> RoomState {
    if count == 0 {
        RoomState::TotallyVacant
    } else if count == capacity {
        RoomState::Full
    } else {
        RoomState::PartiallyOccupied
    }
}

/// The mathematical model of a room: plain integers for the fixed fields,
/// and character sequences for the owner and the occupants.
#[verifier::ext_equal]
pub struct RoomV {
    pub no: u64,
    pub capacity: u64,
    pub price_per_occupant: u64,
    pub state: RoomState,
    pub occupants: Seq<Seq<char>>,
    pub owner: Seq<char>,
}

impl RoomV {
    /// Well-formedness: occupancy within capacity, occupants pairwise
    /// distinct, and the stored state derived from the occupant count.
    pub open spec fn wf(self) -> bool {
        &&& self.occupants.len() <= self.capacity
        &&& (forall|i: int, j: int|
            0 <= i < j < self.occupants.len() ==> self.occupants[i] != self.occupants[j])
        &&& self.state == state_for(self.occupants.len() as int, self.capacity as int)
    }

    /// Whether `user` currently occupies the room.
    pub open spec fn has(self, user: Seq<char>) -> bool {
        exists|i: int| 0 <= i < self.occupants.len() && self.occupants[i] == user
    }

    /// The position of `user` in the occupant list. Under `wf` the
    /// occupants are distinct, so when `has(user)` holds the position is
    /// unique.
    pub open spec fn occupant_index(self, user: Seq<char>) -> int {
        choose|i: int| 0 <= i < self.occupants.len() && self.occupants[i] == user
    }

    /// The room after `user` books it: appended to the occupant list, with
    /// the state recomputed.
    pub open spec fn with_booking(self, user: Seq<char>) -> RoomV {
        RoomV {
            occupants: self.occupants.push(user),
            state: state_for(self.occupants.len() as int + 1, self.capacity as int),
            ..self
        }
    }

    /// The room after `user` gives up their place: removed from the
    /// occupant list, with the state recomputed.
    pub open spec fn without_booking(self, user: Seq<char>) -> RoomV {
        RoomV {
            occupants: self.occupants.remove(self.occupant_index(user)),
            state: state_for(self.occupants.len() as int - 1, self.capacity as int),
            ..self
        }
    }
}

/// The model of a freshly created room: no occupants, totally vacant.
pub open spec fn new_room_v(
    number: u64,
    capacity: u64,
    price_per_occupant: u64,
    owner: Seq<char>,
) -> RoomV {
    RoomV {
        no: number,
        capacity,
        price_per_occupant,
        state: RoomState::TotallyVacant,
        occupants: Seq::empty(),
        owner,
    }
}

/// A bookable room: a fixed number, capacity, and price per occupant, the
/// owner who created it, and the current occupants with their derived
/// state.
#[derive(Debug)]
pub struct Room {
    pub no: u64,
    pub capacity: u64,
    pub price_per_occupant: u64,
    pub state: RoomState,
    pub occupants: CustomVec<User>,
    pub owner: User,
}

impl View for Room {
    type V = RoomV;

    open spec fn view(&self) -> RoomV {
        RoomV {
            no: self.no,
            capacity: self.capacity,
            price_per_occupant: self.price_per_occupant,
            state: self.state,
            occupants: self.occupants.0@.map_values(|u: User| u@),
            owner: self.owner@,
        }
    }
}

impl Clone for Room {
    fn clone(&self) -> (r: Self)
        ensures
            r@ == self@,
    {
        let mut occupants: Vec<User> = Vec::new();
        let mut i: usize = 0;
        while i < self.occupants.0.len()
            invariant
                i <= self.occupants.0.len(),
                occupants@.len() == i,
                forall|j: int| 0 <= j < i ==> occupants@[j] == self.occupants.0@[j],
            decreases self.occupants.0.len() - i,
        {
            occupants.push(self.occupants.0[i].clone());
            i += 1;
        }
        let r = Room {
            no: self.no,
            capacity: self.capacity,
            price_per_occupant: self.price_per_occupant,
            state: self.state,
            occupants: CustomVec(occupants),
            owner: self.owner.clone(),
        };
        proof {
            assert(r@.occupants =~= self@.occupants);
            assert(r@ =~= self@);
        }
        r
    }
}

impl Room {
    /// Constructs a room owned by `owner`, with no occupants yet.
    pub fn new(number: u64, capacity: u64, price_per_occupant: u64, owner: User) -> (r: Self)
        ensures
            r@ == new_room_v(number, capacity, price_per_occupant, owner@),
            r@.wf(),
    {
        let room = Room {
            no: number,
            capacity,
            price_per_occupant,
            state: RoomState::TotallyVacant,
            occupants: CustomVec(Vec::new()),
            owner,
        };
        proof {
            assert(room@ =~= new_room_v(number, capacity, price_per_occupant, room.owner@));
        }
        room
    }

    /// Linear membership test: the first position of `occupant` in the
    /// occupant list, if present.
    pub fn has_occupant(&self, occupant: User) -> (r: Option<usize>)
        ensures
            match r {
                Some(i) => i < self@.occupants.len() && self@.occupants[i as int] == occupant@
                    && (forall|j: int| 0 <= j < i ==> self@.occupants[j] != occupant@),
                None => !self@.has(occupant@),
            },
    {
        let mut i: usize = 0;
        while i < self.occupants.0.len()
            invariant
                i <= self.occupants.0.len(),
                forall|j: int| 0 <= j < i ==> self@.occupants[j] != occupant@,
            decreases self.occupants.0.len() - i,
        {
            if self.occupants.0[i] == occupant {
                return Some(i);
            }
            i += 1;
        }
        None
    }

    /// Books `occupant` into the room: fails when the room is at capacity
    /// or the occupant is already in; otherwise appends the occupant and
    /// recomputes the state.
    pub fn add_occupant(&mut self, occupant: User) -> (r: Result<(), Error>)
        requires
            old(self)@.wf(),
        ensures
            final(self)@.wf(),
            old(self)@.occupants.len() == old(self)@.capacity ==> (
                r == Err::<(), Error>(Error::RoomFull) && *final(self) == *old(self)
            ),
            old(self)@.occupants.len() != old(self)@.capacity && old(self)@.has(occupant@) ==> (
                r == Err::<(), Error>(Error::RoomAlreadyBooked) && *final(self) == *old(self)
            ),
            old(self)@.occupants.len() != old(self)@.capacity && !old(self)@.has(occupant@) ==> (
                r == Ok::<(), Error>(()) && final(self)@ == old(self)@.with_booking(occupant@)
            ),
    {
        if self.occupants.0.len() as u64 == self.capacity {
            return Err(Error::RoomFull);
        }
        match self.has_occupant(occupant.clone()) {
            Some(_) => Err(Error::RoomAlreadyBooked),
            None => {
                self.occupants.0.push(occupant);
                self.state = if self.occupants.0.len() as u64 == self.capacity {
                    RoomState::Full
                } else {
                    RoomState::PartiallyOccupied
                };
                proof {
                    assert(self@.occupants =~= old(self)@.occupants.push(occupant@));
                    assert(self@ =~= old(self)@.with_booking(occupant@));
                }
                Ok(())
            },
        }
    }

    /// Removes `occupant` from the room: fails when the occupant is not
    /// in; otherwise removes them at their position and recomputes the
    /// state so that it stays consistent with the occupant count.
    pub fn remove_occupant(&mut self, occupant: User) -> (r: Result<(), Error>)
        requires
            old(self)@.wf(),
        ensures
            final(self)@.wf(),
            !old(self)@.has(occupant@) ==> (
                r == Err::<(), Error>(Error::NotInRoom) && *final(self) == *old(self)
            ),
            old(self)@.has(occupant@) ==> (
                r == Ok::<(), Error>(()) && final(self)@ == old(self)@.without_booking(occupant@)
            ),
    {
        match self.has_occupant(occupant) {
            Some(index) => {
                proof {
                    let picked = old(self)@.occupant_index(old(self)@.occupants[index as int]);
                    if picked < index as int {
                        assert(old(self)@.occupants[picked]
                            != old(self)@.occupants[index as int]);
                    }
                    if (index as int) < picked {
                        assert(old(self)@.occupants[index as int]
                            != old(self)@.occupants[picked]);
                    }
                    assert(picked == index as int);
                }
                self.occupants.0.remove(index);
                self.state = if self.occupants.0.len() == 0 {
                    RoomState::TotallyVacant
                } else {
                    RoomState::PartiallyOccupied
                };
                proof {
                    assert(self@.occupants
                        =~= old(self)@.occupants.remove(index as int));
                    assert(self@ =~= old(self)@.without_booking(
                        old(self)@.occupants[index as int]));
                }
                Ok(())
            },
            None => Err(Error::NotInRoom),
        }
    }
}

/// Every well-formed room keeps its occupancy within capacity and never
/// lists the same identity twice.
pub proof fn lemma_occupants_within_capacity(room: RoomV)
    requires
        room.wf(),
    ensures
        room.occupants.len() <= room.capacity,
        forall|i: int, j: int|
            0 <= i < j < room.occupants.len() ==> room.occupants[i] != room.occupants[j],
{
}

/// For a room with positive capacity, the stored state is `Full` exactly
/// when the occupant count reaches the capacity, `TotallyVacant` exactly
/// when it is zero, and `PartiallyOccupied` exactly in between. (A room of
/// capacity zero is excluded: it is vacant and at capacity at once, and
/// carries `TotallyVacant`.)
pub proof fn lemma_state_matches_occupancy(room: RoomV)
    requires
        room.wf(),
        room.capacity > 0,
    ensures
        (room.state == RoomState::Full) <==> (room.occupants.len() == room.capacity),
        (room.state == RoomState::TotallyVacant) <==> (room.occupants.len() == 0),
        (room.state == RoomState::PartiallyOccupied) <==> (0 < room.occupants.len()
            < room.capacity),
{
}

/// The payload of a room lookup.
pub struct GetRoomByNumberPayload {
    pub number: u64,
}

/// The payload of a room creation; the caller becomes the owner.
pub struct CreateRoomPayload {
    pub number: u64,
    pub capacity: u64,
    pub price_per_occupant: u64,
}

/// The payload of a booking; `price` must match the room's price exactly.
pub struct BookRoomPayload {
    pub number: u64,
    pub price: u64,
}

/// The payload of an unbooking.
pub struct UnbookRoomPayload {
    pub number: u64,
}

/// The payload of a room deletion; only the owner's succeeds.
pub struct DeleteRoomPayload {
    pub number: u64,
}

} // verus!
