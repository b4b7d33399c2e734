use mudroom::game::component::attribute_definition::AttributeType;
use mudroom::game::component::{Attribute, Check, CheckedDescription, Description, Location};
use mudroom::game::config::AttributeConfig;
use mudroom::game::entity::{Entity, EntityType};
use mudroom::game::game_state::GameState;
use mudroom::game::id::{next_id, IdCounter};
use mudroom::game::map::{Dungeon, Navigation, Room, Universe, World};
use mudroom::persistence::entity_repo::{entity_from_row, entity_type_from_str, entity_type_to_str};

fn test_location() -> Location {
    Location {
        world_id: "w1".to_string(),
        dungeon_id: "d1".to_string(),
        room_id: "r1".to_string(),
    }
}

#[test]
fn default_config_has_expected_attributes() {
    let config = AttributeConfig::default_config();
    let ids: Vec<&str> = config.attributes.iter().map(|a| a.id.as_str()).collect();
    assert!(ids.contains(&"hp"));
    assert!(ids.contains(&"mp"));
    assert!(ids.contains(&"level"));
    assert!(ids.contains(&"xp"));
    assert!(ids.contains(&"strength"));
    assert!(ids.contains(&"dexterity"));
    assert!(ids.contains(&"constitution"));
    assert!(ids.contains(&"intelligence"));
    assert!(ids.contains(&"wisdom"));
    assert!(ids.contains(&"charisma"));
    assert_eq!(config.attributes.len(), 10);
}

#[test]
fn default_config_rows_are_exact() {
    let config = AttributeConfig::default_config();
    let hp = &config.attributes[0];
    assert_eq!(hp.id, "hp");
    assert_eq!(hp.title, "Hit Points");
    assert_eq!(hp.description, "The amount of damage you can sustain before falling.");
    assert_eq!((hp.min_value, hp.max_value), (0, 999));
    assert_eq!(hp.attribute_type, AttributeType::HP);
    let level = &config.attributes[2];
    assert_eq!((level.min_value, level.max_value), (1, 100));
    assert_eq!(level.attribute_type, AttributeType::Level);
    let xp = &config.attributes[3];
    assert_eq!(xp.max_value, i64::MAX);
    let charisma = &config.attributes[9];
    assert_eq!(charisma.id, "charisma");
    assert_eq!((charisma.min_value, charisma.max_value), (1, 20));
    assert_eq!(charisma.attribute_type, AttributeType::Stat);
}

#[test]
fn attribute_type_names_are_lowercase() {
    assert_eq!(AttributeType::HP.name(), "hp");
    assert_eq!(AttributeType::MP.name(), "mp");
    assert_eq!(AttributeType::Level.name(), "level");
    assert_eq!(AttributeType::XP.name(), "xp");
    assert_eq!(AttributeType::Stat.name(), "stat");
}

#[test]
fn entity_new_stores_location() {
    let loc = test_location();
    let entity = Entity::new(1, EntityType::Player, loc);
    assert_eq!(entity.location.world_id, "w1");
    assert_eq!(entity.location.dungeon_id, "d1");
    assert_eq!(entity.location.room_id, "r1");
}

#[test]
fn entity_new_has_no_attributes() {
    let entity = Entity::new(7, EntityType::Character, test_location());
    assert_eq!(entity.id, 7);
    assert_eq!(entity.entity_type, EntityType::Character);
    assert!(entity.attributes.is_empty());
}

#[test]
fn load_without_config_dir_uses_defaults() {
    let state = GameState::load(None);
    assert_eq!(state.attribute_config.attributes.len(), 10);
}

#[test]
fn load_with_config_keeps_it() {
    let mut config = AttributeConfig::default_config();
    config.attributes.truncate(1);
    config.attributes[0].id = "custom_hp".to_string();
    let state = GameState::load(Some(config));
    assert_eq!(state.attribute_config.attributes.len(), 1);
    assert_eq!(state.attribute_config.attributes[0].id, "custom_hp");
}

#[test]
fn constructors_store_their_arguments() {
    let attribute = Attribute::new("hp".to_string(), 0, 100, 80);
    assert_eq!(attribute.definition_id, "hp");
    assert_eq!((attribute.min_value, attribute.max_value, attribute.current_value), (0, 100, 80));
    let check = Check::new(3, 4, 5);
    assert_eq!((check.id, check.attribute_id, check.expected_value), (3, 4, 5));
    let checked = CheckedDescription::new(check, "hidden".to_string());
    assert_eq!(checked.check.id, 3);
    assert_eq!(checked.description, "hidden");
    let description = Description::new(Some("A room.".to_string()));
    assert_eq!(description.basic.as_deref(), Some("A room."));
    assert!(description.checked.is_empty());
    let room = Room::new(9, description);
    assert_eq!(room.id, 9);
    assert!(room.entities.is_empty());
    assert!(room.north.is_none() && room.south.is_none());
    assert!(room.east.is_none() && room.west.is_none());
    let navigation = Navigation::new();
    assert!(navigation.world_id.is_none());
    assert!(navigation.dungeon_id.is_none());
    assert!(navigation.room_id.is_none());
    let dungeon = Dungeon::new("d1".to_string());
    assert_eq!(dungeon.id, "d1");
    assert!(dungeon.rooms.is_empty());
    let world = World::new("w1".to_string());
    assert_eq!(world.id, "w1");
    assert!(world.dungeons.is_empty());
    let universe = Universe::new(11);
    assert_eq!(universe.id, 11);
    assert!(universe.worlds.is_empty());
}

#[test]
fn random_ids_have_the_shape_of_a_uuid() {
    let first = mudroom::game::universe::Universe::new();
    let second = mudroom::game::universe::Universe::new();
    assert_eq!(first.id.len(), 36);
    for (i, c) in first.id.chars().enumerate() {
        if i == 8 || i == 13 || i == 18 || i == 23 {
            assert_eq!(c, '-');
        } else {
            assert!(c.is_ascii_digit() || ('a'..='f').contains(&c));
        }
    }
    assert_ne!(first.id, second.id);
    let room = mudroom::game::universe::Room::new("A cellar.".to_string());
    assert_eq!(room.id.len(), 36);
    assert_eq!(room.description, "A cellar.");
    assert_eq!(World::default().id.len(), 36);
    assert_eq!(Dungeon::default().id.len(), 36);
}

#[test]
fn next_id_counts_up_from_one_and_wraps() {
    let mut counter = IdCounter::new();
    assert_eq!(next_id(&mut counter), 1);
    assert_eq!(next_id(&mut counter), 2);
    assert_eq!(next_id(&mut counter), 3);
}

#[test]
fn entity_type_names_round_trip() {
    assert_eq!(entity_type_to_str(&EntityType::Player), "player");
    assert_eq!(entity_type_to_str(&EntityType::Character), "character");
    assert_eq!(entity_type_from_str("player"), EntityType::Player);
    assert_eq!(entity_type_from_str("character"), EntityType::Character);
    assert_eq!(entity_type_from_str("anything else"), EntityType::Character);
    assert_eq!(entity_type_from_str(""), EntityType::Character);
}

#[test]
fn entity_from_row_builds_the_entity() {
    let entity = entity_from_row(
        1,
        "player",
        "w1".to_string(),
        "d1".to_string(),
        "r2".to_string(),
    );
    assert_eq!(entity.id, 1);
    assert_eq!(entity.entity_type, EntityType::Player);
    assert_eq!(entity.location.world_id, "w1");
    assert_eq!(entity.location.room_id, "r2");
    assert!(entity.attributes.is_empty());
}
