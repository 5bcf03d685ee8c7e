//! Verified core of a serial-bridge "port" program: a supervising host sends
//! length-prefixed frames on the bridge's input stream; the bridge decodes
//! each frame into a command, forwards command bytes to a serial-connected
//! peripheral, and (in the structured protocol) answers with a framed
//! response on its output stream.
//!
//! This crate holds the logic with real correctness constraints: the framing
//! codec, the message codec, and the dispatch rules. The process edges --
//! stream reads and writes, the serial device, the power-on hardware line --
//! live outside it and hand plain byte values in and out.

pub mod codec;
pub mod dispatch;
pub mod frame;
pub mod json;
