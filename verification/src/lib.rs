//! A substrate for persisted entities whose fields carry policy: privacy,
//! uniqueness and authorization are expressed by wrapping a field's value, and
//! every repository operation runs the hooks of those wrappers around the
//! physical effect.

pub mod auth;
pub mod context;
pub mod document;
pub mod entity;
pub mod error;
pub mod oid;
pub mod repository;
pub mod services;
pub mod user;
