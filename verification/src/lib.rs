//! The logic of a small sprite-animation stage: looping animations cut from
//! sprite sheets, characters that play one of several animations at a
//! placement on screen, a registry of textures named by index, and the main
//! loop that turns input events into a choice of pose and each round into
//! a list of drawing commands.
//!
//! Nothing here opens a window, loads an image or polls a device. Whoever
//! uses the library hands it events and textures and carries out the drawing
//! commands that it plans. The one thing that the library takes from outside
//! by itself is the time, which it reads from the monotonic clock.

pub mod animation;
pub mod character;
pub mod clock;
pub mod draw;
pub mod event;
pub mod main_loop;
pub mod rect;
pub mod state;
pub mod texture;
