//! Frame composition for a small real-time renderer.
//!
//! The crate decides what a frame is made of: which resources exist on the
//! device, which render passes are recorded, what each pass binds and draws,
//! and in which order the recorded command buffers reach the queue. All of it
//! is plain data, so a backend can replay it on a graphics API one call at a
//! time, and every rule of the protocol is proved rather than tested.
//!
//! - [`device`] registers resources and hands out handles.
//! - [`uniforms`] keeps the camera uniforms that all drawables share.
//! - [`triangle`] and [`terrain`] are the drawables; [`drawable`] is their
//!   closed set.
//! - [`compositor`] lays out a frame: the clear first, then the drawables
//!   in the order of registration.
//! - [`painter`] says what a submitted frame leaves on its target and holds
//!   the laws of the layout.
//! - [`frame_loop`] decides what the event loop does.

pub mod bytes;
pub mod command;
pub mod compositor;
pub mod device;
pub mod drawable;
pub mod frame_loop;
pub mod painter;
pub mod target;
pub mod terrain;
pub mod triangle;
pub mod types;
pub mod uniforms;

pub use compositor::{clear_screen, Autonomy, Frame};
pub use target::ScreenTargets;
pub use triangle::Triangle;
