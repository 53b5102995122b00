//! Input-and-display core of a steering-wheel dashboard: button debouncing,
//! and a four-bit grayscale panel driven over a four-wire serial link.

pub mod buttons;
pub mod font;
pub mod framebuffer;
pub mod text;
pub mod ui;
pub mod panel;
pub mod screen;
pub mod telemetry;
pub mod usb;
