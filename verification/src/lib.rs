//! Promotion, loyalty and backbone-catalogue domain logic with machine-checked contracts.

pub mod text;
pub mod decimal;
pub mod ports;
pub mod loyalty;
pub mod claim;
pub mod resolve;
pub mod cart;
pub mod cart_laws;
pub mod penny;
pub mod api;
pub mod events;
pub mod value_objects;
pub mod timestamp;
pub mod backbone;
pub mod specifications;
pub mod errors;
pub mod queries;
pub mod services;
pub mod commands;
pub mod entity_kinds;
pub mod records;
