//! Core of an ephemeral social-posting service.
//!
//! Posts are short-lived: every delivery increments a view counter, and once
//! the counter reaches a configured threshold the post is marked invalid and
//! never served again.  Reactions, token-based authentication and the
//! in-process publish/subscribe fan-out for live events are all specified and
//! verified here; network, database and GraphQL plumbing live outside the
//! library.

pub mod assoc;
pub mod clock;
pub mod entities;
pub mod errors;
pub mod events;
pub mod ident;
pub mod memory;
pub mod policy;
pub mod repos;
pub mod rng;
pub mod persona;
pub mod usecases;
pub mod dto;
pub mod stream_auth;
pub mod streams;
pub mod topics;
pub mod token;
pub mod values;
