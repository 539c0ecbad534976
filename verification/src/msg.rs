//! The request messages of the surrounding application and the address a
//! reply is routed to.
//!
//! A dispatcher that expects a reply to a request builds a one-shot channel
//! pair, puts the [`crate::oneshot::Sender`] into the request as a
//! [`ReturnAddress`], and waits on the receiver. The secondary addressing
//! mode — delivery to a raw file descriptor — is deliberately unimplemented
//! and always fails with a structured error naming the descriptor.

use vstd::prelude::*;

use crate::oneshot::Sender;

verus! {

/// A request to the window-managing event loop.
pub enum Msg {
    /// Show the image stored at `path` in the surface `id`.
    ShowImage { path: String, id: u64 },
    /// Open a new window; the created window's id is routed to `resp` when
    /// an address is present.
    OpenWindow { resp: Option<ReturnAddress> },
}

impl Msg {
    /// The open-window request whose reply goes to the in-memory `sender`.
    pub fn open(sender: Sender<u64>) -> (m: Msg)
        ensures
            m == (Msg::OpenWindow { resp: Some(ReturnAddress::Memory(sender)) }),
    {
        Msg::OpenWindow { resp: Some(ReturnAddress::Memory(sender)) }
    }
}

/// Where a reply to a request is delivered.
pub enum ReturnAddress {
    /// Hand the reply over in memory, through the one-shot channel.
    Memory(Sender<u64>),
    /// Write the reply to a raw file descriptor, kept as its raw integer.
    /// This addressing mode is not implemented: sending to it always
    /// fails.
    File(i32),
}

impl ReturnAddress {
    /// Routes `value` to the address. The in-memory path stores it into
    /// the one-shot channel and cannot fail; the file-descriptor path is
    /// unimplemented and reports which descriptor was refused.
    pub fn send(self, value: u64) -> (r: Result<(), ReturnerError>)
        ensures
            (match self {
                ReturnAddress::Memory(_) => r == Ok::<(), ReturnerError>(()),
                ReturnAddress::File(fd) => r == Err::<(), ReturnerError>(
                    ReturnerError::FileError(fd),
                ),
            }),
    {
        match self {
            ReturnAddress::Memory(sender) => {
                sender.send(value);
                Ok(())
            },
            ReturnAddress::File(fd) => Err(ReturnerError::FileError(fd)),
        }
    }
}

impl From<i32> for ReturnAddress {
    /// A bare file descriptor addresses the (unimplemented) file delivery
    /// path.
    fn from(fd: i32) -> (r: ReturnAddress) {
        ReturnAddress::File(fd)
    }
}

impl vstd::std_specs::convert::FromSpecImpl<i32> for ReturnAddress {
    open spec fn obeys_from_spec() -> bool {
        true
    }

    open spec fn from_spec(fd: i32) -> ReturnAddress {
        ReturnAddress::File(fd)
    }
}

/// Why routing a reply failed.
#[derive(Clone, Copy, Debug, PartialEq, Eq, Structural)]
pub enum ReturnerError {
    /// The reply channel could not accept the value. Not reachable through
    /// [`ReturnAddress::send`]: the one-shot send cannot fail.
    SenderError,
    /// Writing the reply to the named raw file descriptor is not
    /// supported.
    FileError(i32),
}

impl ReturnerError {
    /// A human-readable description of the failure.
    pub fn message(&self) -> (s: &'static str)
        ensures
            (match self {
                ReturnerError::SenderError => s@
                    == "data was either already sent on this channel or the consumer hung up"@,
                ReturnerError::FileError(_) => s@
                    == "failed to write data to the specified file descriptor"@,
            }),
    {
        match self {
            ReturnerError::SenderError => {
                "data was either already sent on this channel or the consumer hung up"
            },
            ReturnerError::FileError(_) => {
                "failed to write data to the specified file descriptor"
            },
        }
    }
}

} // verus!
