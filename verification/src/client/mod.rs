//! Client-side logic: conversions, decoding and request building.

pub mod board_mappers;
pub mod commands;
pub mod config;
pub mod decode;
pub mod documents;
pub mod item_mappers;
pub mod items;
pub mod mappers;
pub mod requests;
pub mod round_trips;
pub mod selection;
pub mod text_mappers;

pub use config::{ClientBuilder, KiCadClient};
