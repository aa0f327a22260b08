use vstd::prelude::*;

verus! {

/// The closed set of failures a registry operation can report.
#[derive(Clone, Copy, PartialEq, Eq, Structural, Debug)]
pub enum Error {
    RoomNotFound,
    /// Reserved; no operation currently reports it.
    RoomNotAvailable,
    RoomFull,
    RoomAlreadyBooked,
    InsufficientPrice,
    NotOwner,
    NotInRoom,
    RoomAlreadyExists,
    Overspent,
}

} // verus!
