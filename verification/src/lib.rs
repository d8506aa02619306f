//! Vigil: a headless network monitoring engine.
//!
//! The library holds the engine's decision logic: the per-node status state
//! machine, dependency (uplink) propagation, the drift-free poll scheduler, the
//! engine state that ties them together, and the plain data types that the
//! daemon stores and serves.

pub mod models;
pub mod engine;
pub mod net;
pub mod config;
pub mod api;
pub mod db;
