//! Stable data models used by typed client APIs.

pub mod board;
pub mod common;
pub mod editable;
pub mod layer_names;
