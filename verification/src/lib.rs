//! A client for the control channel of the File Transfer Protocol, written
//! without any input or output of its own: the caller moves the bytes, and
//! this crate decides what they mean and what is to be done next.

pub mod command;
pub mod error;
pub mod ftp_stream;
pub mod reply;
pub mod transport;
