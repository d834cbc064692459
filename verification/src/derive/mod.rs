//! The decisions behind the derive and attribute macros that scripts use:
//! which export metadata a field's attributes select, how fields take part
//! in a script, how enumerations map to numbers, and how script methods
//! are dispatched.
pub mod attribute_ops;
pub mod enums;
pub mod fields;
pub mod impl_attribute;
pub mod property_group;
