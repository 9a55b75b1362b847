//! The ways in which an exchange on the control channel can fail.

use vstd::prelude::*;

verus! {

/// Why an operation on the control channel did not succeed.
#[derive(Clone, Copy, Debug, PartialEq, Eq, Structural)]
pub enum FtpError {
    /// The transport failed: a read or a write reported an error, or the
    /// stream closed before the line of a status code was whole.
    Io,
    /// What the server sent is not a reply: it does not open with three
    /// digits, or the stream closed before the reply was.
    Protocol,
    /// The server greeted with a code other than 220.
    Connect { code: i32 },
    /// The login exchange ended with a code other than 230.
    Login { code: i32 },
}

} // verus!
