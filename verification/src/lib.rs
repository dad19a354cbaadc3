//! Verified core of an AGA-3 orifice gas-flow computer.
//!
//! The crate holds the flow-computation engine (fixed-point AGA-3 equation
//! set over micro-unit scaled integers), the register codec that packs a
//! 32-bit value into two 16-bit register words, and the per-cycle decision
//! logic of the acquisition loop.  Floating-point conversion, the
//! equation-of-state provider, and the register transport live outside the
//! verified core and hand plain integers in and out.

pub mod aga3;
pub mod codec;
pub mod cycle;
