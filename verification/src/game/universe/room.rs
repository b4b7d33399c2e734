use vstd::prelude::*;
use crate::game::map::universe::navigation::Navigation;
use crate::ids::{is_hyphenated_uuid, random_id};

verus! {

/// A room known by a random id and a plain text.
#[derive(Debug, Clone)]
pub struct Room {
    pub id: String,
    pub description: String,
    pub north: Option<Navigation>,
    pub south: Option<Navigation>,
    pub east: Option<Navigation>,
    pub west: Option<Navigation>,
}

impl Room {
    /// A room without exits, under `id`.
    pub fn with_id(id: String, description: String) -> (room: Self)
        ensures
            room.id == id,
            room.description == description,
            room.north is None,
            room.south is None,
            room.east is None,
            room.west is None,
    {
        Self { id, description, north: None, south: None, east: None, west: None }
    }

    /// A room without exits, under a new random id.
    pub fn new(description: String) -> (room: Self)
        ensures
            is_hyphenated_uuid(room.id@),
            room.description == description,
            room.north is None,
            room.south is None,
            room.east is None,
            room.west is None,
    {
        Room::with_id(random_id(), description)
    }
}

} // verus!
