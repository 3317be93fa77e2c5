//! Screen-mirroring core for embedded devices: models the framebuffer
//! geometry, encodes captured pixels with a pluggable codec, and fragments
//! each encoded image into a fixed-layout packet sequence for an unreliable
//! datagram transport.

pub mod encoders;
pub mod framebuffer;
pub mod protocol;
pub mod screencontrol;
