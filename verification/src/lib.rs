//! Verified core of a high-level Stoat chat API wrapper: command parsing,
//! identifier handling, caches and the decisions the client makes.

pub mod builders;
pub mod cache;
pub mod checks;
pub mod commands;
pub mod context;
pub mod converter;
pub mod embed;
pub mod error;
pub mod file;
pub mod events;
pub mod ext;
pub mod handler;
pub mod help;
pub mod http;
pub mod ident;
pub mod mention;
pub mod models;
pub mod partial;
pub mod permissions;
pub mod ranking;
pub mod reactions;
pub mod session;
pub mod sources;
pub mod store;
pub mod tag;
pub mod text;
pub mod ulid;
pub mod voice;
pub mod webhook;
pub mod words;
