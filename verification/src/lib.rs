//! A verified core for a playlist-shuffling web application.
//!
//! The library covers the logic of the service: PKCE material for the OAuth
//! authorization-code flow, the short-lived state store that backs the CSRF
//! defense, session and token bookkeeping, cursor pagination over the
//! upstream collections, an unbiased shuffle, and the batched publish
//! workflow.  Network transport and rendering live outside the library and
//! drive it with plain values.

pub mod auth;
pub mod config;
pub mod endpoints;
pub mod features;
pub mod imports;
pub mod models;
pub mod oauth;
pub mod pagination;
pub mod pkce;
pub mod rng;
pub mod sessions;
pub mod shuffle;
pub mod store;
pub mod text;
pub mod urls;
pub mod users;
pub mod workflow;
