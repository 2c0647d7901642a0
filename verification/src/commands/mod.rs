//! The step functions of the slash commands.

pub mod accounts;
pub mod misc;
pub mod setup;
pub mod verify;
