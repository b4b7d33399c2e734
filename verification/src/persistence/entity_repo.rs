use vstd::prelude::*;
use crate::game::component::Location;
use crate::game::entity::{Entity, EntityType};

verus! {

/// The name under which a kind of entity is stored.
pub open spec fn entity_type_name(entity_type: EntityType) -> Seq<char> {
    match entity_type {
        EntityType::Player => "player"@,
        EntityType::Character => "character"@,
    }
}

/// The name under which a kind of entity is stored.
pub fn entity_type_to_str(et: &EntityType) -> (name: &'static str)
    ensures
        name@ == entity_type_name(*et),
{
    match et {
        EntityType::Player => "player",
        EntityType::Character => "character",
    }
}

/// The kind of entity that a stored name stands for: a player for `player`,
/// a character for every other name.
pub fn entity_type_from_str(s: &str) -> (entity_type: EntityType)
    ensures
        entity_type == if s@ == "player"@ {
            EntityType::Player
        } else {
            EntityType::Character
        },
{
    let name: String = s.to_owned();
    let player: String = "player".to_owned();
    if name == player {
        EntityType::Player
    } else {
        EntityType::Character
    }
}

/// The entity that one stored row stands for; its attributes are stored apart.
pub fn entity_from_row(
    id: i64,
    entity_type: &str,
    world_id: String,
    dungeon_id: String,
    room_id: String,
) -> (entity: Entity)
    ensures
        entity.id == id,
        entity.entity_type == if entity_type@ == "player"@ {
            EntityType::Player
        } else {
            EntityType::Character
        },
        entity.location.world_id == world_id,
        entity.location.dungeon_id == dungeon_id,
        entity.location.room_id == room_id,
        entity.attributes@ == Map::<String, crate::game::component::Attribute>::empty(),
{
    Entity::new(id, entity_type_from_str(entity_type), Location { world_id, dungeon_id, room_id })
}

} // verus!
