//! A verified counter in the model / update / view style.
//!
//! [`model`] holds the state, the messages, and the transition function;
//! [`render`] holds the widget tree that the state renders to. A thin shell
//! around the library wires both into a GUI runtime's event loop.

pub mod model;
pub mod render;
