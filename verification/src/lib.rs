//! A URL shortener's core: short codes, the table that maps them to links,
//! the service built on both, its HTTP responses, and the record through
//! which a client finds a running server.

pub mod args;
pub mod client;
pub mod controller;
pub mod db;
pub mod registry;
pub mod routes;
pub mod service;
pub mod text;
pub mod utils;
