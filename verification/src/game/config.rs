pub mod attribute_config;

pub use attribute_config::AttributeConfig;
