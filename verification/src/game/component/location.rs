use vstd::prelude::*;

verus! {

/// Where an entity is: a room of a dungeon of a world.
#[derive(Debug, Clone)]
pub struct Location {
    pub world_id: String,
    pub dungeon_id: String,
    pub room_id: String,
}

} // verus!
