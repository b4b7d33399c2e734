use vstd::prelude::*;
use crate::game::component::check::Check;

verus! {

/// A description that is shown only to those who pass a check.
#[derive(Debug, Clone)]
pub struct CheckedDescription {
    pub check: Check,
    pub description: String,
}

impl CheckedDescription {
    pub fn new(check: Check, description: String) -> (checked: Self)
        ensures
            checked.check == check,
            checked.description == description,
    {
        Self { check, description }
    }
}

/// What there is to see: a basic text for everyone, and further texts behind
/// checks.
#[derive(Debug, Clone)]
pub struct Description {
    pub basic: Option<String>,
    pub checked: Vec<CheckedDescription>,
}

impl Description {
    pub fn new(basic: Option<String>) -> (description: Self)
        ensures
            description.basic == basic,
            description.checked@.len() == 0,
    {
        Self { basic, checked: Vec::new() }
    }
}

impl Default for Description {
    fn default() -> (description: Self)
        ensures
            description.basic is None,
            description.checked@.len() == 0,
    {
        Description::new(None)
    }
}

} // verus!
