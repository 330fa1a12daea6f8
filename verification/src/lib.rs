//! Core of a real-time chat server: presence, conversation channels,
//! connection life cycle, message ingest and private-session resolution.

pub mod auth;
pub mod channel;
pub mod clock;
pub mod connection;
pub mod conversation;
pub mod encoding;
pub mod error;
pub mod handlers;
pub mod models;
pub mod password;
pub mod pipeline;
pub mod presence;
pub mod registry;
pub mod session;
pub mod text;
pub mod token;
