//! A game-of-the-day bot library: a verified schedule engine that keeps a
//! live set of recurring jobs fresh from storage, detects due occurrences,
//! and requests at most one dispatch per occurrence, together with the pure
//! text logic the bot's commands are built from.

pub mod commands;
pub mod gameinfo;
pub mod job;
pub mod model;
pub mod recurrence;
pub mod scheduler;
pub mod text;
