use vstd::prelude::*;

verus! {

/// A condition on one attribute: it is met by the expected value.
#[derive(Debug, Clone)]
pub struct Check {
    pub id: i64,
    pub attribute_id: i64,
    pub expected_value: i64,
}

impl Check {
    pub fn new(id: i64, attribute_id: i64, expected_value: i64) -> (check: Self)
        ensures
            check.id == id,
            check.attribute_id == attribute_id,
            check.expected_value == expected_value,
    {
        Self { id, attribute_id, expected_value }
    }
}

} // verus!
