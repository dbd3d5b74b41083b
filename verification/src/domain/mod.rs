//! Domain layer: enums, errors, value objects and services.

pub mod enums;
pub mod errors;
pub mod value_objects;
pub mod ids;
pub mod constants;
pub mod entities;
pub mod services;
