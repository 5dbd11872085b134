//! A small real-time renderer for a window on a desktop.
//!
//! A frame is drawn on the CPU into a pixel buffer of four bytes per pixel
//! and then shown on the window. Between two frames the player steers
//! rectangles with the keyboard or a controller; the rectangles are kept on
//! the surface and drawn, each in its colour, in the order in which they
//! were created.
//!
//! The library asks the platform nothing itself. The program around it asks
//! for the size of the drawable area, the pending messages, the focus and
//! the keys, hands the answers over as plain values, and shows the buffer
//! when a frame is done. What the library does with the answers is verified:
//! a buffer always has exactly the bytes of its size, drawing never touches
//! a byte outside it, and every function says exactly what it leaves behind.
//!
//! - [`math`]: rectangles, colours, points.
//! - [`win32_engine`]: the pixel buffer, clearing and drawing into it, the
//!   state of the window and of the input.
//! - [`entity`] and [`entity_manager`]: the rectangles that the player steers.
//! - [`frame_loop`]: one turn of the loop that ties these together.
//! - [`language_layer`]: text as the platform takes it.

pub mod entity;
pub mod entity_manager;
pub mod frame_loop;
pub mod language_layer;
pub mod math;
pub mod win32_engine;
