//! Validation of a five-field input record against a fixed table of
//! length and pattern rules, with every violation reported in a fixed order.

pub mod fields;
pub mod outside;
pub mod rules;
pub mod engine;
pub mod report;
pub mod laws;
