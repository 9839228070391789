//! Account protection for offline-mode game servers.
//!
//! Players register and log in with a password, or claim a premium name by its Mojang id. Until
//! then they are frozen. The library decides; files, network and server events are its caller's:
//! [`commands`] and [`handlers`] take plain values and say what is to be sent, written or fetched.
//! [`laws`] states what holds across commands, joins and leaves.

pub mod commands;
pub mod config;
pub mod guarantees;
pub mod handlers;
pub mod hash;
pub mod laws;
pub mod messages;
pub mod premium;
pub mod registry;
pub mod session;
pub mod state;
pub mod storage;
pub mod table;
pub mod text;
pub mod validation;
