//! A first-person camera for a real-time renderer, with its state transitions
//! verified.
//!
//! The camera holds an eye position, a yaw and a pitch, and a perspective
//! frustum, and keeps the view matrix, the projection matrix, their product
//! and the inverse of the product in step with them ([`camera`]). It comes
//! with the rules by which a host turns keys and the cursor into steps and
//! turns ([`controls`]).
//!
//! Numbers are floating-point values held by their bit patterns: binary32
//! throughout ([`scalar`]), binary64 for window coordinates ([`wide`]).
//! Verified code compares and classifies them exactly. The arithmetic on
//! them is done by a numeric kernel that the host supplies ([`numerics`]);
//! what is verified is which numbers the kernel is asked about, what is done
//! with its answers, and which inputs are refused.

pub mod ieee;
pub mod scalar;
pub mod wide;
pub mod linear;
pub mod numerics;
pub mod frame;
pub mod projection;
pub mod state;
pub mod camera;
pub mod controls;
pub mod laws;
