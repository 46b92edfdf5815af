//! A window and input-event layer for a canvas that is driven by host callbacks.
//!
//! Host events arrive at arbitrary times; the application reads them once per
//! frame. This crate holds the pieces that sit between the two:
//!
//! - `event`: the unified event vocabulary;
//! - `translate`: the translation of host events into it;
//! - `state`: the table of current key and button states;
//! - `queue`: the queue of translated events that were not read yet;
//! - `canvas`: the canvas that owns both and the operations on it;
//! - `model`: the canvas as a mathematical value, and what holds of every run;
//! - `frame`: the driver of the render loop;
//! - `geometry`: where the indices of an object lie in the index buffer.
//!
//! Nothing here talks to the host. The caller reads from the host, hands
//! plain values in, and performs what comes back.

pub mod canvas;
pub mod event;
pub mod frame;
pub mod geometry;
pub mod model;
pub mod queue;
pub mod state;
pub mod translate;
