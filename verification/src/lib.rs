//! Deterministic rollback simulation core for a two-player arena game.
//!
//! The crate provides, as verified code: the per-tick fixed-point simulation
//! step (`sim`), the frame-count timer that drives trail cadence (`timer`),
//! the input-byte codec (`input`), the rollback session that buffers
//! confirmed and predicted inputs and resimulates on a late correction
//! (`rollback`), the peer-channel message codec (`wire`), and the
//! matchmaking state machine (`lobby`).  Network and window I/O live
//! outside the library and hand it plain values.

pub mod input;
pub mod lobby;
pub mod rollback;
pub mod sim;
pub mod timer;
pub mod wire;
