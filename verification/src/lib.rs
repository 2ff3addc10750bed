//! Authentication gateway and object-storage upload pipeline for a small
//! e-commerce backend.
//!
//! The library holds the security-sensitive core: password hashing and
//! verification, stateless session-token issuance and validation, the
//! gateway checks that guard protected routes, storage-key derivation for
//! uploaded assets, multipart field dispatch, and the error taxonomy that
//! the HTTP boundary translates into status codes. Database access, HTTP
//! routing and the object-store network calls live outside, and hand this
//! library plain values.

pub mod auth;
pub mod auth_guard;
pub mod config;
pub mod errors;
pub mod ids;
pub mod image_service;
pub mod models;
pub mod numbers;
pub mod password;
pub mod products_model;
pub mod text;
pub mod token;
