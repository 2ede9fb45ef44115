//! Toolpath generation and command pacing for a sand-tracing plotter.
//!
//! The crate produces motion commands for a G-code speaking controller and
//! decides, step by step, how each command is delivered over a
//! request/acknowledge serial link. Everything here is pure decision logic
//! with machine-checked contracts; the caller owns the port and the clock.

pub mod ack;
pub mod command;
pub mod config;
pub mod encoder;
pub mod exchange;
pub mod generator;
pub mod geometry;
pub mod numeral;
pub mod shutdown;
pub mod startup;
pub mod trace;
pub mod transport;
