//! A read-only map tile server core: payload sniffing and compression,
//! tileset classification, the tileset registry, configuration parsing,
//! request routing and reload coordination.

pub mod config;
pub mod errors;
pub mod registry;
pub mod reload;
pub mod service;
pub mod text;
pub mod tiles;
pub mod utils;
