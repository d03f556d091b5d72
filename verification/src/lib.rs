//! Rotary-encoder control core: quadrature decoding, the shared encoder
//! state with its position bounds, and the target-sequencing rules that
//! decide when the binary output is asserted.
//!
//! Angles are carried as integer millidegrees throughout, so that every
//! degree/step conversion is exact and provable; the unverified shell
//! converts to and from floating point at its edges.

pub mod controller;
pub mod decoder;
pub mod settings;
