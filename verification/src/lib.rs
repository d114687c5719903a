//! Queue and request logic of a Telegram voice-chat music worker.

pub mod auth;
pub mod downloader;
pub mod laws;
pub mod models;
pub mod operations;
pub mod routes;
pub mod state;
pub mod text;
pub mod worker;
