//! A small document-generation service: it plans the creation of a blank,
//! fixed-size PDF at a caller-given destination and classifies every way
//! the run can fail.
//!
//! The service itself is a pure decision pipeline. The two outside effects
//! of a run — rendering the document bytes with an authoring library and
//! writing them to disk — are performed by the caller, who feeds each
//! outcome back into the pipeline. Every decision the pipeline makes is
//! specified and verified here.

pub mod config;
pub mod error;
pub mod service;
