//! A screen-mirroring pipeline: periodic capture of a monitor's framebuffer,
//! channel-order correction, texture upload sizing, frame pacing, and the
//! off-screen window presentation plan.

pub mod config;
pub mod convert;
pub mod errors;
pub mod frame;
pub mod pacer;
pub mod presenter;
pub mod render;
pub mod session;
