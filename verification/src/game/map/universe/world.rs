use std::collections::HashMap;
use vstd::prelude::*;
use crate::game::map::universe::dungeon::Dungeon;
use crate::ids::{is_hyphenated_uuid, random_id};

verus! {

/// A world: its dungeons, by id.
#[derive(Debug, Clone)]
pub struct World {
    pub id: String,
    pub dungeons: HashMap<String, Dungeon>,
}

impl World {
    /// A world without dungeons.
    pub fn new(id: String) -> (world: Self)
        ensures
            world.id == id,
            world.dungeons@ == Map::<String, Dungeon>::empty(),
    {
        Self { id, dungeons: HashMap::new() }
    }
}

impl Default for World {
    /// A world without dungeons, under a new random id.
    fn default() -> (world: Self)
        ensures
            is_hyphenated_uuid(world.id@),
            world.dungeons@ == Map::<String, Dungeon>::empty(),
    {
        World::new(random_id())
    }
}

} // verus!
