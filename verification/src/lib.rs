//! Verified core of the Veronex inference gateway: domain enums, value
//! objects, validation rules, identifier encodings and request shaping.

pub mod codec;
pub mod text;
pub mod json;
pub mod domain;
pub mod http;
