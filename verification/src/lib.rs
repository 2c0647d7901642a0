//! Decision logic of the Soldier Discord bot: emoji and embed catalogues,
//! message components, error replies, interaction dispatch and the
//! step functions of the slash commands.

pub mod text;
pub mod emojis;
pub mod embeds;
pub mod components;
pub mod helper;
pub mod error;
pub mod flow;
pub mod migration;
pub mod model;
pub mod commands;
pub mod startup;
