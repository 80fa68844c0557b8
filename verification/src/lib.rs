//! Decision logic of a git repository service: request validation, the
//! choices made around each repository operation, and the shaping of replies.
pub mod config;
pub mod validate;
pub mod proto;
pub mod rules;
pub mod json;
pub mod time;
pub mod error;
pub mod repository;
pub mod service;
pub mod server;
