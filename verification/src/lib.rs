//! Core logic of a server-moderation bot: rules, strikes, convictions and
//! confirmation prompts, with the text that the bot shows for each.

pub mod text;
pub mod data;
pub mod errors;
pub mod rule;
pub mod strikes;
pub mod convictions;
pub mod util;
