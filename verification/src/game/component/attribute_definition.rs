use vstd::prelude::*;

verus! {

/// The kinds of attribute.
#[derive(Debug, Clone, Copy, PartialEq, Eq, Structural)]
pub enum AttributeType {
    HP,
    MP,
    Level,
    XP,
    Stat,
}

/// What an attribute is called and which values it may take.
#[derive(Debug, Clone)]
pub struct AttributeDefinition {
    pub id: String,
    pub title: String,
    pub description: String,
    pub min_value: i64,
    pub max_value: i64,
    pub attribute_type: AttributeType,
}

/// The mathematical content of an [`AttributeDefinition`].
pub struct DefinitionView {
    pub id: Seq<char>,
    pub title: Seq<char>,
    pub description: Seq<char>,
    pub min_value: i64,
    pub max_value: i64,
    pub attribute_type: AttributeType,
}

impl View for AttributeDefinition {
    type V = DefinitionView;

    open spec fn view(&self) -> DefinitionView {
        DefinitionView {
            id: self.id@,
            title: self.title@,
            description: self.description@,
            min_value: self.min_value,
            max_value: self.max_value,
            attribute_type: self.attribute_type,
        }
    }
}

impl AttributeType {
    /// The lower-case name under which this kind is written in configuration
    /// and storage.
    pub fn name(&self) -> (name: &'static str)
        ensures
            name@ == match *self {
                AttributeType::HP => "hp"@,
                AttributeType::MP => "mp"@,
                AttributeType::Level => "level"@,
                AttributeType::XP => "xp"@,
                AttributeType::Stat => "stat"@,
            },
    {
        match self {
            AttributeType::HP => "hp",
            AttributeType::MP => "mp",
            AttributeType::Level => "level",
            AttributeType::XP => "xp",
            AttributeType::Stat => "stat",
        }
    }
}

} // verus!
