//! Verified core of the Kick chat adapter.

pub mod config;
pub mod decimal;
pub mod engine;
pub mod json;
pub mod kick_api;
pub mod messages;
pub mod moderation;
pub mod prompt;
pub mod pusher;
pub mod setup;
pub mod text;
