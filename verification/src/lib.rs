//! Verified core of a compression benchmark harness.
//!
//! The harness compares a baseline byte compressor (zstd) with a
//! schema-aware structured compressor on batches of telemetry and table
//! payloads. This crate holds what the harness decides:
//!
//! - `discovery`: which directories are batches, how their names read,
//!   which files are payloads and in which order they are read;
//! - `dispatch`: which codecs a batch is measured with;
//! - `session`, `session_laws`: the conversation with the structured
//!   codec's native engine, call by call, and what holds of every one;
//! - `baseline`: the zstd benchmark, pass after pass;
//! - `structured`, `structured_laws`: the book of a structured benchmark run;
//! - `batch`: the measurement of one batch;
//! - `report`: the order and the rows of the report;
//! - `artifact`: the name of the document that holds a run's results;
//! - `runner`, `clock`, `dictionary`, `text`, `proto`: what these share.
//!
//! The crate reads no file and never calls the structured codec's engine:
//! a driver does both. Of outside code it calls zstd alone, in `baseline`.
//! Times are whole nanoseconds and sizes whole bytes; statistics over them
//! are the caller's.

pub mod artifact;
pub mod baseline;
pub mod batch;
pub mod clock;
pub mod dictionary;
pub mod discovery;
pub mod dispatch;
pub mod proto;
pub mod report;
pub mod runner;
pub mod session;
pub mod session_laws;
pub mod structured;
pub mod structured_laws;
pub mod text;
