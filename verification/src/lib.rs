//! Mirrors a Roblox account's presence as Discord rich presence.
//!
//! The library holds the decisions: how a configuration text is read, how the
//! replies of the Roblox web API are understood, when the elapsed-time counter
//! restarts, and what each polling cycle shows. Network and IPC traffic is left
//! to the program around it.

pub mod config;
pub mod display;
pub mod presence;
pub mod request;
pub mod resources;
pub mod roblox;
pub mod utils;
