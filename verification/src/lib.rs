//! Field-validation core of a request-handling layer: converts untyped,
//! multi-valued form input (text values and uploaded files) into
//! strongly-typed, validated application values, accumulating human-readable
//! error messages along the way.

pub mod fields;
pub mod forms;
