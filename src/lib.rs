//! A small frame controller for a window backed by a CPU pixel buffer.
//!
//! The library decides what happens on each window event (exit, resize the
//! surface, hand the frame to the user, present, ask for the next frame) and
//! offers verified helpers to fill the row-major `0xRRGGBB` pixel buffer.
//! Creating the window and talking to the display is left to the host.

mod controller;
mod laws;
mod pixels;
mod properties;

pub use controller::{
    delivered, event_outcome, pixel_count, requested_surface_size, Action, ControllerState, FrameController, FrameError,
    FrameEvent, Phase,
};
pub use laws::{
    count, deliveries, lemma_callback_order, lemma_callback_sees_events_in_order,
    lemma_close_exits_once, lemma_properties_read_back, lemma_redraw_presents_once,
    lemma_exit_not_repeated, lemma_resize_sets_surface, run_events,
};
pub use pixels::{draw_gradient, fill, gradient_pixel, pack_rgb, rgb};
pub use properties::{WindowProperties, DEFAULT_HEIGHT, DEFAULT_WIDTH};
