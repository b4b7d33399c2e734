use vstd::prelude::*;
use crate::game::component::Description;
use crate::game::entity::Entity;
use crate::game::map::universe::navigation::Navigation;

verus! {

/// A room: what there is to see, who is in it, and where its exits lead.
#[derive(Debug, Clone)]
pub struct Room {
    pub id: i64,
    pub description: Description,
    pub entities: Vec<Entity>,
    pub north: Option<Navigation>,
    pub south: Option<Navigation>,
    pub east: Option<Navigation>,
    pub west: Option<Navigation>,
}

impl Room {
    /// An empty room without exits.
    pub fn new(id: i64, description: Description) -> (room: Self)
        ensures
            room.id == id,
            room.description == description,
            room.entities@.len() == 0,
            room.north is None,
            room.south is None,
            room.east is None,
            room.west is None,
    {
        Self {
            id,
            description,
            entities: Vec::new(),
            north: None,
            south: None,
            east: None,
            west: None,
        }
    }
}

} // verus!
