use std::collections::HashMap;
use vstd::prelude::*;
use crate::ids::{is_hyphenated_uuid, random_id};

pub mod room;

pub use crate::game::map::universe::dungeon::Dungeon;
pub use crate::game::map::universe::navigation::Navigation;
pub use crate::game::map::universe::world::World;
pub use room::Room;

verus! {

/// Everything there is, under an id of its own: the worlds, by id.
#[derive(Debug, Clone)]
pub struct Universe {
    pub id: String,
    pub worlds: HashMap<String, World>,
}

impl Universe {
    /// A universe without worlds, under `id`.
    pub fn with_id(id: String) -> (universe: Self)
        ensures
            universe.id == id,
            universe.worlds@ == Map::<String, World>::empty(),
    {
        Self { id, worlds: HashMap::new() }
    }

    /// A universe without worlds, under a new random id.
    pub fn new() -> (universe: Self)
        ensures
            is_hyphenated_uuid(universe.id@),
            universe.worlds@ == Map::<String, World>::empty(),
    {
        Universe::with_id(random_id())
    }
}

impl Default for Universe {
    fn default() -> (universe: Self)
        ensures
            is_hyphenated_uuid(universe.id@),
            universe.worlds@ == Map::<String, World>::empty(),
    {
        Universe::new()
    }
}

} // verus!
