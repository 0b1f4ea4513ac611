//! Decision logic of a Matrix bot that relays pages and rubric news to DAPNET.

pub mod callsign;
pub mod config;
pub mod dispatch;
pub mod error;
pub mod lookup;
pub mod permission;
pub mod send;
pub mod status;
pub mod text;
