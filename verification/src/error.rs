//! The one error of this transport.

use vstd::prelude::*;

verus! {

/// `std::io::Error`, the error of the socket layer. Nothing is claimed of what
/// such a value holds: it is carried through as it is.
#[verifier::external_type_specification]
#[verifier::external_body]
pub struct ExIoError(std::io::Error);

/// A failure of the transport. There is one kind only: a failure of the socket
/// underneath, at the time the socket is set up or while datagrams are
/// received, kept as the socket layer gave it.
#[derive(Debug)]
pub struct ProtoError {
    /// The failure as the socket layer gave it.
    pub io: std::io::Error,
}

impl ProtoError {
    /// The failure of the socket layer that this error wraps.
    pub fn io_error(&self) -> (io: &std::io::Error)
        ensures
            *io == self.io,
    {
        &self.io
    }

    /// Gives the failure of the socket layer back.
    pub fn into_io_error(self) -> (io: std::io::Error)
        ensures
            io == self.io,
    {
        self.io
    }
}

impl From<std::io::Error> for ProtoError {
    fn from(io: std::io::Error) -> (error: ProtoError) {
        ProtoError { io }
    }
}

impl vstd::std_specs::convert::FromSpecImpl<std::io::Error> for ProtoError {
    open spec fn obeys_from_spec() -> bool {
        true
    }

    open spec fn from_spec(io: std::io::Error) -> ProtoError {
        ProtoError { io }
    }
}

} // verus!
