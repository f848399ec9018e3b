//! Turns what the host is doing (the focused program, the output of user
//! scripts) into one-byte commands framed for a programmable keyboard.
//!
//! The library holds the decisions of the event pipeline: which value a
//! poller emits on a tick, how an event becomes a device frame, and how the
//! supervisor reconnects after a device error. The program around it runs the
//! external commands, the threads, the queue and the device writes.
pub mod conf;
pub mod engine;
pub mod error;
pub mod event;
pub mod event_sink;
pub mod event_source;
pub mod supervisor;
pub mod text;

pub use error::Error;
pub use event::{encode_frame, Event, SendData, FRAME_LEN};
