//! Mirror of the live state of chat communities and the engine that turns
//! each change notification into a list of attribute-level differences.

pub mod bot;
pub mod config;
pub mod context;
pub mod diff;
pub mod errors;
pub mod expiring_map;
pub mod handle;
pub mod handle_bulk;
pub mod handle_message;
pub mod handle_update;
pub mod ids;
pub mod items;
pub mod merge_into_map;
pub mod model;
pub mod server;
pub mod text;
