//! The core of a job-application tracker: how job records are written to and
//! read from a document store, which store request each operation of the
//! service makes, and which reply follows from the store's answer.
//!
//! - [`document`]: the model of a BSON document and the calls into the `bson`
//!   crate, whose contracts are assumed.
//! - [`clock`]: the wall clock.
//! - [`job`]: the job and the payload that creates or updates one.
//! - [`mapper`]: from stored document to job, from payload to document.
//! - [`query`]: filters and update commands, and what they mean.
//! - [`reply`]: replies, status codes and messages.
//! - [`service`]: the five operations.
//! - [`store`]: a model of the store, for stating what the operations achieve.
//! - [`laws`]: what the operations achieve, proved over that model.

pub mod clock;
pub mod document;
pub mod job;
pub mod laws;
pub mod mapper;
pub mod query;
pub mod reply;
pub mod service;
pub mod store;
