//! An inventory of installable game mods, organized into named, ordered,
//! independently togglable profiles, with the active profile's enabled mods
//! deployed as one layered filesystem view through an external union-mount
//! tool.

pub mod driver;
pub mod error;
mod fsops;
pub mod ids;
pub mod manager;
pub mod models;
pub mod storage;
