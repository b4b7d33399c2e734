use vstd::prelude::*;
use crate::game::component::attribute_definition::{AttributeDefinition, AttributeType, DefinitionView};

verus! {

/// The attributes that the game knows.
#[derive(Debug, Clone)]
pub struct AttributeConfig {
    pub attributes: Vec<AttributeDefinition>,
}

impl View for AttributeConfig {
    type V = Seq<DefinitionView>;

    open spec fn view(&self) -> Seq<DefinitionView> {
        self.attributes@.map_values(|definition: AttributeDefinition| definition@)
    }
}

/// One row of the built-in attribute table.
pub open spec fn row(
    id: &str,
    title: &str,
    description: &str,
    min_value: i64,
    max_value: i64,
    attribute_type: AttributeType,
) -> DefinitionView {
    DefinitionView {
        id: id@,
        title: title@,
        description: description@,
        min_value,
        max_value,
        attribute_type,
    }
}

/// The built-in attribute table: hit points, mana, level, experience and the
/// six character stats.
pub open spec fn default_attributes() -> Seq<DefinitionView> {
    seq![
        row(
            "hp",
            "Hit Points",
            "The amount of damage you can sustain before falling.",
            0,
            999,
            AttributeType::HP,
        ),
        row(
            "mp",
            "Mana Points",
            "The magical energy available for spells and abilities.",
            0,
            999,
            AttributeType::MP,
        ),
        row("level", "Level", "Your overall experience level.", 1, 100, AttributeType::Level),
        row(
            "xp",
            "Experience Points",
            "Points accumulated through deeds and adventure.",
            0,
            i64::MAX,
            AttributeType::XP,
        ),
        row(
            "strength",
            "Strength",
            "Raw physical power and carrying capacity.",
            1,
            20,
            AttributeType::Stat,
        ),
        row(
            "dexterity",
            "Dexterity",
            "Agility, reflexes, and hand-eye coordination.",
            1,
            20,
            AttributeType::Stat,
        ),
        row(
            "constitution",
            "Constitution",
            "Endurance, stamina, and resistance to harm.",
            1,
            20,
            AttributeType::Stat,
        ),
        row(
            "intelligence",
            "Intelligence",
            "Reasoning ability, memory, and arcane aptitude.",
            1,
            20,
            AttributeType::Stat,
        ),
        row("wisdom", "Wisdom", "Perception, intuition, and willpower.", 1, 20, AttributeType::Stat),
        row(
            "charisma",
            "Charisma",
            "Force of personality, persuasiveness, and leadership.",
            1,
            20,
            AttributeType::Stat,
        ),
    ]
}

fn definition(
    id: &str,
    title: &str,
    description: &str,
    min_value: i64,
    max_value: i64,
    attribute_type: AttributeType,
) -> (made: AttributeDefinition)
    ensures
        made@ == row(id, title, description, min_value, max_value, attribute_type),
{
    AttributeDefinition {
        id: id.to_owned(),
        title: title.to_owned(),
        description: description.to_owned(),
        min_value,
        max_value,
        attribute_type,
    }
}

impl AttributeConfig {
    /// The built-in attribute table.
    pub fn default_config() -> (config: Self)
        ensures
            config@ == default_attributes(),
            config.attributes@.len() == 10,
    {
        let mut attributes: Vec<AttributeDefinition> = Vec::new();
        attributes.push(
            definition(
                "hp",
                "Hit Points",
                "The amount of damage you can sustain before falling.",
                0,
                999,
                AttributeType::HP,
            ),
        );
        attributes.push(
            definition(
                "mp",
                "Mana Points",
                "The magical energy available for spells and abilities.",
                0,
                999,
                AttributeType::MP,
            ),
        );
        attributes.push(
            definition(
                "level",
                "Level",
                "Your overall experience level.",
                1,
                100,
                AttributeType::Level,
            ),
        );
        attributes.push(
            definition(
                "xp",
                "Experience Points",
                "Points accumulated through deeds and adventure.",
                0,
                i64::MAX,
                AttributeType::XP,
            ),
        );
        attributes.push(
            definition(
                "strength",
                "Strength",
                "Raw physical power and carrying capacity.",
                1,
                20,
                AttributeType::Stat,
            ),
        );
        attributes.push(
            definition(
                "dexterity",
                "Dexterity",
                "Agility, reflexes, and hand-eye coordination.",
                1,
                20,
                AttributeType::Stat,
            ),
        );
        attributes.push(
            definition(
                "constitution",
                "Constitution",
                "Endurance, stamina, and resistance to harm.",
                1,
                20,
                AttributeType::Stat,
            ),
        );
        attributes.push(
            definition(
                "intelligence",
                "Intelligence",
                "Reasoning ability, memory, and arcane aptitude.",
                1,
                20,
                AttributeType::Stat,
            ),
        );
        attributes.push(
            definition(
                "wisdom",
                "Wisdom",
                "Perception, intuition, and willpower.",
                1,
                20,
                AttributeType::Stat,
            ),
        );
        attributes.push(
            definition(
                "charisma",
                "Charisma",
                "Force of personality, persuasiveness, and leadership.",
                1,
                20,
                AttributeType::Stat,
            ),
        );
        let config = AttributeConfig { attributes };
        assert(config@ =~= default_attributes());
        config
    }
}

} // verus!
