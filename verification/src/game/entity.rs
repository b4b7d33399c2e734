use std::collections::HashMap;
use vstd::prelude::*;
use crate::game::component::Attribute;
use crate::game::component::Location;

verus! {

/// Who controls an entity: a player, or the game.
#[derive(Debug, Clone, Copy, PartialEq, Eq, Structural)]
pub enum EntityType {
    Player,
    Character,
}

/// Something that lives in the world: it is somewhere and has attributes.
#[derive(Debug, Clone)]
pub struct Entity {
    pub id: i64,
    pub entity_type: EntityType,
    pub location: Location,
    pub attributes: HashMap<String, Attribute>,
}

impl Entity {
    /// An entity at `location` that has no attributes yet.
    pub fn new(id: i64, entity_type: EntityType, location: Location) -> (entity: Self)
        ensures
            entity.id == id,
            entity.entity_type == entity_type,
            entity.location == location,
            entity.attributes@ == Map::<String, Attribute>::empty(),
    {
        Self { id, entity_type, location, attributes: HashMap::new() }
    }
}

} // verus!
