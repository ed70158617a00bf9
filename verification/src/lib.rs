//! Driver-side model of a 212 x 104 tri-color e-paper panel behind an
//! SSD1675-family controller: panel geometry and rotation, the dual-plane
//! framebuffer, the waveform lookup table, the controller configuration and
//! command stream, and the facade that ties them together.

pub mod color;
pub mod geometry;
pub mod plane;
pub mod surface;
pub mod lut;
pub mod config;
pub mod command;
pub mod driver;
pub mod interface;
pub mod screen;
pub mod wiring;
