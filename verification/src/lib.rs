//! A registry of bookable rooms.
//!
//! A room is created by an owner with a fixed capacity and a fixed price
//! per occupant. Callers book and unbook rooms under an opaque identity
//! string; only the owner may delete a room. The registry keeps every
//! room's derived occupancy state consistent with its occupant count and
//! rejects an operation wholesale on the first failing precondition.

pub mod error;
pub mod models;
pub mod registry;
