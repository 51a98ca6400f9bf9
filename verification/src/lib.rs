//! Core rules of a small forum backend: three item categories (story, ask,
//! comment), per-category field validation for creation requests, projection
//! of a stored item row into its per-category response shape, user-name
//! validation, and a single stable mapping from service errors to HTTP
//! status codes, internal codes and messages.

pub mod category;
pub mod config;
pub mod dto;
pub mod error;
pub mod handler;
pub mod item;
pub mod protocol;
pub mod routes;
pub mod text;
pub mod todo;
pub mod user;
pub mod v0;
