//! A verified model of a windowed render loop.
//!
//! The crate holds the decisions of a small GPU application as plain data:
//! how the render state follows the window's size, which commands a frame
//! is made of, how vertex data is laid out in a buffer, and what the event
//! loop does with each event. Talking to the window system and to the GPU
//! is left to the caller, who hands events in and carries actions out.

pub mod dpi;
pub mod color;
pub mod swap_chain;
pub mod bytes;
pub mod vertex;
pub mod pipeline;
pub mod event;
pub mod state;
pub mod event_loop;

pub use crate::event_loop::Driver;
pub use crate::state::State;
pub use crate::vertex::Vertex;
