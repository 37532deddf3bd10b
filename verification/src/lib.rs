//! The core of a personal movie watchlist service.
//!
//! A client adds a movie by its identifier or by its title: the service looks
//! the movie up at a metadata provider and keeps what the provider answered.
//! It lists, finds and deletes what it keeps. Every failure reaches the client
//! as an HTTP status with a short body.
//!
//! The crate holds the decisions of such a service and none of its transport:
//!
//! - [`movie`]: the movie record and how records are searched;
//! - [`error`]: the failures of the provider and of the store, and the
//!   response that a client receives for a failure;
//! - [`error_status`]: which response stands for which failure;
//! - [`catchers`]: the responses of the fallback handlers;
//! - [`workflow`]: what a request does with each answer that it waited for;
//! - [`provider`] and [`store`]: the two collaborators, in memory;
//! - [`service`]: the watchlist operations over the two;
//! - [`laws`]: what holds of the operations together.

pub mod catchers;
pub mod error;
pub mod error_status;
pub mod laws;
pub mod movie;
pub mod provider;
pub mod service;
pub mod store;
pub mod workflow;
