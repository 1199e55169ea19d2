//! An installer for a Linux desktop, without the terminal and without the
//! machine: what is detected, planned and decided, as verified functions on
//! plain values.
//!
//! - `text`, `table`, `json`: reading what the tools print.
//! - `detect`, `network`, `storage`: the facts about the machine.
//! - `plan`: the package groups for those facts.
//! - `provision`: installing the groups and configuring the installed system.
//! - `action`: the outside work as values, and how a piece of it can end.
//! - `app`, `keys`: the session that leads the user through the installation.
//! - `model`, `laws`: the session as a state machine, and what holds of it.

pub mod action;
pub mod app;
pub mod data;
pub mod detect;
pub mod json;
pub mod keys;
pub mod lang;
pub mod laws;
pub mod model;
pub mod network;
pub mod plan;
pub mod provision;
pub mod storage;
pub mod table;
pub mod text;
