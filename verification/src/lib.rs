//! Tracking who won internet arguments: the shared argument status, the
//! models and decisions of the Discord bot, and those of the HTTP server.

pub mod bot;
pub mod server;
pub mod status;
pub mod text;
