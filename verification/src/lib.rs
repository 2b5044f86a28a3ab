//! Verified core of the DyingStar server plugins: request validation, handler
//! decisions, player registries and zone-ordered generic props.

pub mod access;
pub mod auth;
pub mod combat;
pub mod communication;
pub mod connection;
pub mod errors;
pub mod game_server;
pub mod generic_props;
pub mod ids;
pub mod movement;
pub mod player_plugin;
pub mod property_map;
pub mod props;
pub mod scanning;
pub mod text;
