//! Frame buffer driver for the Japan Display LPM013M126 display, used in
//! Bangle.js 2 and Jazda.
//!
//! The panel is 176 by 176 pixels and is written to over SPI. It only supports
//! updating entire rows, so the driver caches the screen in a buffer whose bytes
//! can be put on the bus as they stand. EXTCOM inversion is driven with EXTCOMIN.
//!
//! The crate decides; it touches no hardware. Each method of
//! [`driver::Lpm013m126`] answers one event with the work that the caller has to
//! carry out, and where the driver needs to know how that went, the caller reports
//! it with another method.
//!
//! * [`header`], [`frame_buffer`]: what goes over the bus
//! * [`model`], [`driver`]: the state machine, on plain values and as code
//! * [`events`]: what each event does, spelled out
//! * [`frame_laws`], [`laws`], [`system`]: what holds of them together
//! * [`process`]: the turn that the kernel's main loop gives to a process

pub mod driver;
pub mod events;
pub mod frame_buffer;
pub mod frame_laws;
pub mod header;
pub mod hil;
pub mod laws;
pub mod model;
pub mod process;
pub mod sub_slice;
pub mod system;
pub mod work;
