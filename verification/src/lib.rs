//! Per-frame glue between a libretro-style host and the GameTank engine:
//! input reconciliation, the audio hand-off queue, and the palette expansion
//! of the engine's framebuffer, each with a machine-checked contract.

pub mod audio;
pub mod bindings;
pub mod buttons;
pub mod palette;
pub mod session;
pub mod snapshot;
pub mod states;

pub use palette::buffer_to_color_image;
