//! Verified core of a self-hosted home drive: request validation, access
//! decisions, path and file-name safety, HTTP range handling, task
//! bookkeeping and the pure parts of the storage and database layers.

pub mod album;
pub mod auth;
pub mod config;
pub mod content;
pub mod errors;
pub mod file;
pub mod member;
pub mod schema;
pub mod storage;
pub mod store;
pub mod system;
pub mod task;
pub mod text;
pub mod thumbnail;
pub mod web;
