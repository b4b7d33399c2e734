pub mod attribute;
pub mod attribute_definition;
pub mod check;
pub mod description;
pub mod location;

pub use attribute::Attribute;
pub use attribute_definition::AttributeDefinition;
pub use attribute_definition::AttributeType;
pub use check::Check;
pub use description::CheckedDescription;
pub use description::Description;
pub use location::Location;
