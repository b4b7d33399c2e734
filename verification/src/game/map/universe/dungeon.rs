use std::collections::HashMap;
use vstd::prelude::*;
use crate::game::map::universe::room::Room;
use crate::ids::{is_hyphenated_uuid, random_id};

verus! {

/// A dungeon: its rooms, by id.
#[derive(Debug, Clone)]
pub struct Dungeon {
    pub id: String,
    pub rooms: HashMap<String, Room>,
}

impl Dungeon {
    /// A dungeon without rooms.
    pub fn new(id: String) -> (dungeon: Self)
        ensures
            dungeon.id == id,
            dungeon.rooms@ == Map::<String, Room>::empty(),
    {
        Self { id, rooms: HashMap::new() }
    }
}

impl Default for Dungeon {
    /// A dungeon without rooms, under a new random id.
    fn default() -> (dungeon: Self)
        ensures
            is_hyphenated_uuid(dungeon.id@),
            dungeon.rooms@ == Map::<String, Room>::empty(),
    {
        Dungeon::new(random_id())
    }
}

} // verus!
