//! Verified core of a LAN controller for Govee lights: the LAN protocol
//! messages, per-SKU capabilities, the device registry, screen-zone
//! sampling, effect decisions and the small text rules around them.
pub mod capture;
pub mod commands;
pub mod effects;
pub mod govee;
pub mod http;
pub mod state;
pub mod text;
