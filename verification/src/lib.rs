//! Core of a catalog/commerce backend: credential hashing, signed session
//! tokens, request-level access control, a generic soft-delete and
//! pagination engine shared by every catalog resource, referential
//! validation for writes, and cart aggregation.
//!
//! The persistent store is modelled as an in-memory repository
//! ([`store::Store`]); the surrounding transport and process glue live
//! outside this crate and talk to it through plain values.
pub mod auth;
pub mod catalog;
pub mod cart;
pub mod credential;
pub mod dto;
pub mod engine;
pub mod entities;
pub mod errors;
pub mod products;
pub mod store;
pub mod text;
pub mod token;
pub mod validate;
