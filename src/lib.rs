//! Capture of a live spectator stream into local storage, and replay of the
//! captured match over the same wire protocol.
//!
//! The library holds the logic: the wire model, URL shapes, the capture
//! session and its deduplication sets, the polling decisions, the catalog
//! record and the replay routing. Network, disk and the HTTP listener are
//! driven by the application around it.

pub mod capture;
pub mod catalog;
pub mod endpoints;
pub mod error;
pub mod models;
pub mod replay;
pub mod session;
pub mod text;
