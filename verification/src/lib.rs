//! Reactive core of a small video-browsing front end.
//!
//! The library owns the state-management pattern that binds a one-shot
//! asynchronous fetch of video records to a two-level view hierarchy:
//! a single source-of-truth item collection, a single source-of-truth
//! selection, and callback-driven replacement of that selection.
//! Everything here is plain data and pure transitions; the host (HTTP
//! transport, JSON decoding, DOM rendering) lives outside and drives
//! these functions with events.

pub mod controller;
pub mod laws;
pub mod model;
pub mod views;
