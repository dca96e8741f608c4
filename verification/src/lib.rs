//! Core logic of a periodic Eddystone beacon node: device-identity
//! derivation, fixed-point temperature handling, UID/TLM frame encoding,
//! advertisement assembly, and the interrupt-driven broadcast schedule.
//!
//! Hardware access (radio, timer, factory registers, temperature sensor)
//! lives outside this crate; everything here is pure logic over plain
//! values and is verified.

pub mod advert;
pub mod frames;
pub mod identity;
pub mod scheduler;
pub mod temperature;
