use vstd::prelude::*;

verus! {

/// The value that an entity has for one attribute, with the range it may take.
#[derive(Debug, Clone)]
pub struct Attribute {
    pub definition_id: String,
    pub min_value: i64,
    pub max_value: i64,
    pub current_value: i64,
}

impl Attribute {
    pub fn new(definition_id: String, min_value: i64, max_value: i64, current_value: i64) -> (attribute:
        Self)
        ensures
            attribute.definition_id == definition_id,
            attribute.min_value == min_value,
            attribute.max_value == max_value,
            attribute.current_value == current_value,
    {
        Self { definition_id, min_value, max_value, current_value }
    }
}

} // verus!
