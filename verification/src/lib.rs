//! A tracking-pixel beacon: the rules that decide which fetches count as
//! views, what is recorded for each, and how recorded views are summarised.
//!
//! The service has two handlers and a store between them. Whatever touches
//! a socket or a database stays with the program around this library; here
//! are the decisions, as functions from plain values to plain values, each
//! with its contract:
//!
//! - [`camo`] and [`text`]: the marker in a user agent and the identifier
//!   embedded in it;
//! - [`beacon`]: whether a fetch is accepted, what is stored for it, and how
//!   it ends;
//! - [`stats`]: the questions that make a summary, and what follows from
//!   each answer;
//! - [`store`]: what a true answer is, and a store that keeps its log in
//!   memory;
//! - [`service`]: the two handlers run against that store;
//! - [`reply`], [`event`], [`instant`]: the values that pass between them;
//! - [`laws`]: what holds of all of it, proved.

pub mod beacon;
pub mod camo;
pub mod event;
pub mod instant;
pub mod laws;
pub mod reply;
pub mod service;
pub mod stats;
pub mod store;
pub mod text;
