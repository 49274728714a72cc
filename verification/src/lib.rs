//! Core of a heart-rate monitoring pipeline.
//!
//! A wired sensor (or a synthetic generator) produces a line-oriented stream
//! of raw amplitude samples.  The library parses those lines, runs a
//! hysteresis pulse detector over the samples, keeps the latest reading in a
//! record shared with any number of live viewers, renders the per-tick
//! message pushed to each viewer, and decides how the transport connector and
//! each viewer session react to their events.  The process plumbing around
//! it (serial port, clock ticks, sockets, the durable observation store) sits
//! outside and hands the library plain values.

pub mod clock;
pub mod detector;
pub mod fhir;
pub mod ingest;
pub mod live;
pub mod parser;
pub mod publisher;
pub mod stats;
pub mod transport;
