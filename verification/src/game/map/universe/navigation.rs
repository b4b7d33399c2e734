use vstd::prelude::*;

verus! {

/// Where an exit leads: as much of world, dungeon and room as differs from
/// where one stands.
#[derive(Debug, Clone)]
pub struct Navigation {
    pub world_id: Option<String>,
    pub dungeon_id: Option<String>,
    pub room_id: Option<String>,
}

impl Navigation {
    /// An exit that leads nowhere yet.
    pub fn new() -> (navigation: Self)
        ensures
            navigation.world_id is None,
            navigation.dungeon_id is None,
            navigation.room_id is None,
    {
        Self { world_id: None, dungeon_id: None, room_id: None }
    }
}

impl Default for Navigation {
    fn default() -> (navigation: Self)
        ensures
            navigation.world_id is None,
            navigation.dungeon_id is None,
            navigation.room_id is None,
    {
        Navigation::new()
    }
}

} // verus!
