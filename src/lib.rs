//! An emulation core for the SNES sound chip (S-DSP), with the pieces that
//! drive a rendered capture around it.

pub mod helpers;
pub mod brr;
pub mod timing;
pub mod envelope;
pub mod filter;
pub mod ring_buffer;
pub mod memory;
pub mod gauss;
pub mod voice;
pub mod dsp;
pub mod pitch;
pub mod render;
pub mod spc;
pub mod tuning;
pub mod video;
