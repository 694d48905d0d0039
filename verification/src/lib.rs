//! Single-instance image viewer core.
//!
//! The first process to start owns the window and listens on a local endpoint;
//! every later process hands its path to the first one and exits. This crate
//! holds the rules of that rendezvous, the framing of its messages, the queue
//! that carries paths into the render loop, and the state of what is on
//! display, including the timing of animated content.

pub mod views;
pub mod path;
pub mod frame;
pub mod codec;
pub mod content;
pub mod viewer;
pub mod protocol;
pub mod channel;
pub mod server;
pub mod client;
pub mod endpoint;
pub mod window;
