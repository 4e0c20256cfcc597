//! Core logic of a portable electrical measurement logger.
//!
//! The crate holds the parts of the firmware that decide and compute: decoding
//! of sensor registers, the measurement buffer, the composition of transfer
//! jobs, the status model with its hysteresis state machines, and the sampling
//! cycle with its backpressure rule. Hardware access, rendering and network
//! delivery are left to the program that embeds the crate.
//!
//! Every physical quantity is a signed integer count of nano-units
//! (nanovolts, nanoamperes, nanowatts), so that all arithmetic is exact.

pub mod controller;
pub mod currentlogs;
pub mod displayctl;
pub mod hysteresis;
pub mod operator;
pub mod sensor;
pub mod text;
pub mod transfer;
pub mod wifi;
