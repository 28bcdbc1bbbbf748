//! A growable byte buffer that sits between a streaming byte source and an
//! incremental consumer.
//!
//! [`Buffer`](buffer::Buffer) accumulates bytes pulled from a source, exposes
//! the unread region as one contiguous slice, lets the consumer mark bytes as
//! consumed, and reclaims or grows its storage as needed, never holding more
//! than [`MAX_BUFFER_SIZE`](state::MAX_BUFFER_SIZE) bytes.
//!
//! The mathematical model of a buffer is [`State`](state::State); every
//! executable operation is specified as a transition of that model.

pub mod buffer;
pub mod laws;
pub mod source;
pub mod state;

pub use crate::buffer::{Buffer, BufferError};
pub use crate::state::{INIT_BUFFER_SIZE, MAX_BUFFER_SIZE};
