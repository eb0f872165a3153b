//! A consumer for crawl results.
//!
//! Deliveries arrive from a broker queue as raw bytes. Each one is decoded,
//! checked against the message schema, turned into a [`models::Message`],
//! held to the processing rules, normalised and handed to a
//! [`storage::Storage`] backend. Every delivery ends in exactly one signal to
//! the broker: a positive acknowledgment when all of that succeeded, a
//! negative one otherwise.
//!
//! The crate holds the decisions only. Talking to the broker, waiting and
//! writing log lines are left to the program that drives
//! [`consumer::on_event`].

pub mod errors;
pub mod text;
pub mod json;
pub mod models;
pub mod storage;
pub mod indexer;
pub mod consumer;
