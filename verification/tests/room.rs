use hostel_manager_backend::error::Error;
use hostel_manager_backend::models::Room;
use hostel_manager_backend::models::RoomState;
use hostel_manager_backend::models::User;

fn user(name: &str) -> User {
    User(name.to_string())
}

#[test]
fn new_room_is_vacant() {
    let room = Room::new(7, 2, 100, user("alice"));
    assert_eq!(room.no, 7);
    assert_eq!(room.capacity, 2);
    assert_eq!(room.price_per_occupant, 100);
    assert_eq!(room.state, RoomState::TotallyVacant);
    assert!(room.occupants.0.is_empty());
    assert_eq!(room.owner, user("alice"));
}

#[test]
fn has_occupant_finds_first_position() {
    let mut room = Room::new(7, 3, 100, user("owner"));
    assert_eq!(room.has_occupant(user("a")), None);
    assert!(room.add_occupant(user("a")).is_ok());
    assert!(room.add_occupant(user("b")).is_ok());
    assert_eq!(room.has_occupant(user("a")), Some(0));
    assert_eq!(room.has_occupant(user("b")), Some(1));
    assert_eq!(room.has_occupant(user("c")), None);
}

#[test]
fn add_occupant_recomputes_state() {
    let mut room = Room::new(7, 2, 100, user("owner"));
    assert_eq!(room.add_occupant(user("a")), Ok(()));
    assert_eq!(room.state, RoomState::PartiallyOccupied);
    assert_eq!(room.add_occupant(user("b")), Ok(()));
    assert_eq!(room.state, RoomState::Full);
}

#[test]
fn add_occupant_rejects_when_full() {
    let mut room = Room::new(7, 1, 100, user("owner"));
    assert!(room.add_occupant(user("a")).is_ok());
    assert_eq!(room.add_occupant(user("b")), Err(Error::RoomFull));
    assert_eq!(room.occupants.0.len(), 1);
}

#[test]
fn add_occupant_rejects_duplicate() {
    let mut room = Room::new(7, 3, 100, user("owner"));
    assert!(room.add_occupant(user("a")).is_ok());
    assert_eq!(room.add_occupant(user("a")), Err(Error::RoomAlreadyBooked));
    assert_eq!(room.occupants.0.len(), 1);
}

#[test]
fn add_occupant_rejects_zero_capacity() {
    let mut room = Room::new(7, 0, 100, user("owner"));
    assert_eq!(room.add_occupant(user("a")), Err(Error::RoomFull));
}

#[test]
fn remove_occupant_rejects_absentee() {
    let mut room = Room::new(7, 2, 100, user("owner"));
    assert_eq!(room.remove_occupant(user("a")), Err(Error::NotInRoom));
}

#[test]
fn remove_occupant_recomputes_state() {
    let mut room = Room::new(7, 2, 100, user("owner"));
    assert!(room.add_occupant(user("a")).is_ok());
    assert!(room.add_occupant(user("b")).is_ok());
    assert_eq!(room.state, RoomState::Full);
    assert_eq!(room.remove_occupant(user("a")), Ok(()));
    assert_eq!(room.state, RoomState::PartiallyOccupied);
    assert_eq!(room.occupants.0.len(), 1);
    assert_eq!(room.occupants.0[0], user("b"));
    assert_eq!(room.remove_occupant(user("b")), Ok(()));
    assert_eq!(room.state, RoomState::TotallyVacant);
    assert!(room.occupants.0.is_empty());
}

#[test]
fn clone_copies_every_field() {
    let mut room = Room::new(7, 2, 100, user("owner"));
    assert!(room.add_occupant(user("a")).is_ok());
    let copy = room.clone();
    assert_eq!(copy.no, room.no);
    assert_eq!(copy.capacity, room.capacity);
    assert_eq!(copy.price_per_occupant, room.price_per_occupant);
    assert_eq!(copy.state, room.state);
    assert_eq!(copy.owner, room.owner);
    assert_eq!(copy.occupants.0, room.occupants.0);
}
