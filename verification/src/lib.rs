//! A unified value model for structured data formats (JSON, TOML, CSS and others),
//! with verified constructors, accessors, lookups and conversions.
//!
//! A [`Value`] is either a [`SimpleValue`] (the empty value, a boolean, a number, a string, a
//! time, a date-time, an angle, a literal, a length, a color, bytes) or a [`ContainerValue`]
//! (a list, or a map whose keys are values too). Each type has a model in `vstd` terms, and
//! the contracts speak of those models.

pub mod index;
pub mod json;
pub mod laws;
pub mod map;
pub mod number;
pub mod patch;
pub mod toml_value;
pub mod value;

pub use index::IndexValue;
pub use json::{
    container_value_to_serde_json, number_to_serde_json_number, simple_value_to_serde_json,
    to_serde_json_map, value_to_serde_json, JsonNumber, JsonValue,
};
pub use map::MapType;
pub use number::{BigInteger, Number, NumberConversionError};
pub use patch::TryFromPatch;
pub use toml_value::TomlValue;
pub use value::{
    Color, ContainerValue, Date, DateTime, DefaultInnerValueSelf, Offset, SimpleValue, Time,
    Value, ValueType,
};
