//! A minimal interactive simulation: a fixed-timestep loop drives a small
//! entity world whose renderable Blob entities are composited each tick into
//! a character-grid canvas with wrap-around addressing, while keyboard input
//! is merged into the loop through a non-blocking pending-key queue.

pub mod canvas;
pub mod input;
pub mod laws;
pub mod sim;
pub mod world;
