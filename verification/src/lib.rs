//! A sans-I/O codec for the PostgreSQL frontend/backend wire protocol.
//!
//! The crate turns a byte stream into typed frontend messages and typed
//! backend messages into their exact wire layout. It neither reads nor
//! writes: the caller brings the buffers.
//!
//! Every function is verified against a mathematical model of the protocol.
//! [`codec`] holds the frame codec and the model of its decoder, [`frontend`]
//! and [`message`] the two families of messages with the model of their wire
//! format, and [`laws`] what is proved of the model as a whole. What is
//! believed rather than proved is the behaviour of the code this crate
//! calls: the methods of `bytes::BytesMut` in [`buffer`], `str::from_utf8`
//! in [`cursor`], and the size formatting of `bytesize` in [`error`].

pub mod buffer;
pub mod codec;
pub mod conn;
pub mod cursor;
pub mod encoder;
pub mod error;
pub mod format;
pub mod frontend;
pub mod laws;
pub mod message;
pub mod pgbuf;
pub mod tag;
pub mod text;
pub mod value;
pub mod wire;
