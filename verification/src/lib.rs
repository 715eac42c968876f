//! Verified core of a cover-image acquisition service.
//!
//! The library holds the decision logic of the service: the eligibility
//! gate that says when a cover may be fetched again, the provider
//! resolution order, the store effect of an acquisition job, the
//! missing-cover worklist, the batch progress arithmetic, the cache
//! invalidation plan, and the supervisor's finish-or-abort decision.
//! All I/O (HTTP, database, files) stays outside; the functions here
//! take the outside world's answers as plain values and are verified
//! for every such answer.

pub mod provider;

pub mod cover;

pub mod store;

pub mod job;

pub mod scanner;

pub mod supervisor;

pub mod numfmt;

pub mod cache;

pub mod image;

pub mod clock;

pub mod error;

pub mod config;
