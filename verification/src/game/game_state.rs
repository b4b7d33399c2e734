use vstd::prelude::*;
use crate::game::config::attribute_config::default_attributes;
use crate::game::config::AttributeConfig;

verus! {

/// The rules that a running game goes by.
pub struct GameState {
    pub attribute_config: AttributeConfig,
}

impl GameState {
    /// The game state for the attribute table that was found in the
    /// configuration directory, or for the built-in table where none was:
    /// because no directory was given, or because it holds no table.
    pub fn load(configured: Option<AttributeConfig>) -> (state: Self)
        ensures
            state.attribute_config@ == match configured {
                Some(config) => config@,
                None => default_attributes(),
            },
    {
        let attribute_config = match configured {
            Some(config) => config,
            None => AttributeConfig::default_config(),
        };
        Self { attribute_config }
    }
}

} // verus!
