//! A sans-I/O core for a conversational web service client.
//!
//! The library decides what is sent and what a reply means; the caller moves
//! the bytes. Every operation of a [`api::Client`] comes as a pair: a function
//! that describes the HTTP request to make, and a function that turns the
//! outcome of that request into the typed result of the operation.

pub mod api;
pub mod error;
pub mod json;
pub mod number;
pub mod objects;
pub mod proxy;
pub mod text;
pub mod stream;
pub mod transport;
