//! The decision logic of a small OpenGL renderer, kept apart from the driver.
//!
//! Nothing in this crate talks to a window system or a graphics driver. Every
//! operation either describes the driver call to make as a plain [`command::Command`],
//! or decides what to do next from what the driver reported. The program around
//! the crate performs the calls and feeds the replies back.

pub mod glenum;
pub mod command;
mod text;
pub mod buffer;
pub mod shader;
pub mod debug;
pub mod frame;
pub mod window;

