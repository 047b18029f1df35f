//! Time tracking in half-hour slots.
//!
//! A topic is something that time is spent on; a daily track says which
//! topic one half hour went to. The library holds the two tables, the six
//! operations on them, the handlers that validate a request before it
//! reaches the tables, and the router that takes a request to its handler.
//!
//! - [`time`], [`ident`] and [`text`] are the values underneath: instants,
//!   identifiers and their numbers, and the texts that are read and written.
//! - [`db_model`] and [`db`] are the rows and the tables.
//! - [`models`], [`convert`] and [`error`] are what clients send and see.
//! - [`handler`] decides on each request, [`api`] gives each answer its
//!   status, and [`server`] routes.
//! - [`form`] writes the values of [`models`] in one line and reads them
//!   back.

pub mod api;
pub mod convert;
pub mod db;
pub mod db_model;
pub mod error;
pub mod form;
pub mod handler;
pub mod ident;
pub mod models;
pub mod server;
pub mod text;
pub mod time;
