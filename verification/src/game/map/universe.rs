use std::collections::HashMap;
use vstd::prelude::*;

pub mod dungeon;
pub mod navigation;
pub mod room;
pub mod world;

pub use dungeon::Dungeon;
pub use navigation::Navigation;
pub use room::Room;
pub use world::World;

verus! {

/// Everything there is: the worlds, by id.
#[derive(Debug, Clone)]
pub struct Universe {
    pub id: i64,
    pub worlds: HashMap<i64, World>,
}

impl Universe {
    /// A universe without worlds.
    pub fn new(id: i64) -> (universe: Self)
        ensures
            universe.id == id,
            universe.worlds@ == Map::<i64, World>::empty(),
    {
        Self { id, worlds: HashMap::new() }
    }
}

} // verus!
