//! Identity layer of a cloud-service backend: authentication providers,
//! account federation, cached cloud credentials and the request guard.
//!
//! Everything that talks to the outside world (the relational store, the
//! shared cache, HTTP) is driven by the caller: each flow is a state machine
//! that names the next outside request and decides on the reply it is handed.

pub mod auth;
pub mod cache;
pub mod clouds;
pub mod db;
pub mod error;
pub mod middleware;
pub mod models;
pub mod routes;
pub mod server;
pub mod text;
pub mod utils;
