//! One datagram and the address it travels with.

use crate::address::SocketAddress;
use vstd::prelude::*;

verus! {

/// What a [`SerialMessage`] is: its payload as a sequence of bytes, and its
/// address.
pub struct MessageView {
    pub bytes: Seq<u8>,
    pub addr: SocketAddress,
}

/// A payload of bytes together with an address: the source of a datagram that
/// was received, the destination of one that is to be sent.
#[derive(Debug)]
pub struct SerialMessage {
    bytes: Vec<u8>,
    addr: SocketAddress,
}

impl View for SerialMessage {
    type V = MessageView;

    closed spec fn view(&self) -> MessageView {
        MessageView { bytes: self.bytes@, addr: self.addr }
    }
}

impl SerialMessage {
    /// Puts a payload and an address together.
    pub fn new(bytes: Vec<u8>, addr: SocketAddress) -> (message: SerialMessage)
        ensures
            message@ == (MessageView { bytes: bytes@, addr }),
    {
        SerialMessage { bytes, addr }
    }

    /// The payload.
    pub fn bytes(&self) -> (bytes: &[u8])
        ensures
            bytes@ == self@.bytes,
    {
        self.bytes.as_slice()
    }

    /// The address: where the payload came from, or where it is to go.
    pub fn addr(&self) -> (addr: SocketAddress)
        ensures
            addr == self@.addr,
    {
        self.addr
    }

    /// Takes the message apart again.
    pub fn unwrap(self) -> (parts: (Vec<u8>, SocketAddress))
        ensures
            parts.0@ == self@.bytes,
            parts.1 == self@.addr,
    {
        (self.bytes, self.addr)
    }
}

impl Clone for SerialMessage {
    fn clone(&self) -> (copy: SerialMessage)
        ensures
            copy@ == self@,
    {
        SerialMessage { bytes: self.bytes.clone(), addr: self.addr }
    }
}

} // verus!
