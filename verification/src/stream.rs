//! The transport itself: what it hands to its caller for each thing the
//! socket underneath yields, and how it comes into being.
//!
//! The socket is not driven from here. Whoever owns it polls it, says what
//! came of that as a [`BindPoll`] or a [`SocketPoll`], and gets back what the
//! caller of the transport is to see.

use crate::address::SocketAddress;
use crate::error::ProtoError;
use crate::message::{MessageView, SerialMessage};
use vstd::prelude::*;
use vstd::string::*;

verus! {

/// What one poll of the socket's datagram stream yielded.
#[derive(Debug)]
pub enum SocketPoll {
    /// Nothing has arrived yet.
    NotReady,
    /// A datagram arrived; the message holds its payload and its source.
    Datagram(SerialMessage),
    /// The socket will yield no more datagrams.
    Closed,
    /// The socket failed.
    Failed(std::io::Error),
}

/// What a [`SocketPoll`] is, with the message as its view.
pub enum SocketPollView {
    NotReady,
    Datagram(MessageView),
    Closed,
    Failed(std::io::Error),
}

impl View for SocketPoll {
    type V = SocketPollView;

    open spec fn view(&self) -> SocketPollView {
        match self {
            SocketPoll::NotReady => SocketPollView::NotReady,
            SocketPoll::Datagram(message) => SocketPollView::Datagram(message@),
            SocketPoll::Closed => SocketPollView::Closed,
            SocketPoll::Failed(io) => SocketPollView::Failed(*io),
        }
    }
}

/// What one poll of the transport yields to its caller.
#[derive(Debug)]
pub enum StreamPoll {
    /// No message yet: poll again when the socket is ready.
    NotReady,
    /// A message was received. `from_name_server` tells whether it came from
    /// the address the transport was made for; it is an observation for
    /// diagnostics, and the message is handed on either way.
    Message { message: SerialMessage, from_name_server: bool },
    /// The sequence of messages has ended.
    Finished,
    /// The socket failed; the sequence of messages ends with this error.
    Failed(ProtoError),
}

/// What a [`StreamPoll`] is, with the message as its view.
pub enum StreamPollView {
    NotReady,
    Message { message: MessageView, from_name_server: bool },
    Finished,
    Failed(ProtoError),
}

impl View for StreamPoll {
    type V = StreamPollView;

    open spec fn view(&self) -> StreamPollView {
        match self {
            StreamPoll::NotReady => StreamPollView::NotReady,
            StreamPoll::Message { message, from_name_server } => StreamPollView::Message {
                message: message@,
                from_name_server: *from_name_server,
            },
            StreamPoll::Finished => StreamPollView::Finished,
            StreamPoll::Failed(error) => StreamPollView::Failed(*error),
        }
    }
}

/// What a transport for `name_server` yields when its socket yielded `polled`.
///
/// A datagram is handed on with its payload and source untouched, whatever
/// its source is; only the flag records whether the source is `name_server`.
/// The end of the socket's datagrams ends the messages, and a failure of the
/// socket becomes the transport's error.
pub open spec fn received(name_server: SocketAddress, polled: SocketPollView) -> StreamPollView {
    match polled {
        SocketPollView::NotReady => StreamPollView::NotReady,
        SocketPollView::Datagram(message) => StreamPollView::Message {
            message,
            from_name_server: message.addr == name_server,
        },
        SocketPollView::Closed => StreamPollView::Finished,
        SocketPollView::Failed(io) => StreamPollView::Failed(ProtoError { io }),
    }
}

/// The name of a stream for `name_server`: `UDP(` and `)` round the address.
pub open spec fn label(name_server: SocketAddress) -> Seq<char> {
    seq!['U', 'D', 'P', '('] + name_server.text() + seq![')']
}

/// A UDP client stream of messages: the receiving side of a datagram socket,
/// tied for its whole life to the address of one name server.
#[derive(Debug)]
#[must_use]
pub struct UdpClientStream {
    name_server: SocketAddress,
}

impl UdpClientStream {
    /// The address this stream was made for.
    pub closed spec fn name_server(&self) -> SocketAddress {
        self.name_server
    }

    /// Starts a stream for `name_server`. The stream itself exists only once
    /// the socket is bound: what comes back is the pending connection, to be
    /// polled with the outcome of the socket's setup.
    ///
    /// Whoever manages the streams is expected to make a new one, on a new
    /// socket and so on a new local port, for each exchange.
    pub fn new(name_server: SocketAddress) -> (connect: UdpClientConnect)
        ensures
            connect.name_server() == name_server,
    {
        UdpClientConnect { name_server }
    }

    /// The address this stream was made for.
    pub fn name_server_addr(&self) -> (addr: SocketAddress)
        ensures
            addr == self.name_server(),
    {
        self.name_server
    }

    /// The stream's name for diagnostics: the protocol and the name server.
    pub fn to_string(&self) -> (s: String)
        ensures
            s@ == label(self.name_server()),
    {
        proof {
            reveal_strlit("UDP(");
            reveal_strlit(")");
        }
        let mut out = String::new();
        out.append("UDP(");
        out.append(self.name_server.to_string().as_str());
        out.append(")");
        assert(out@ =~= label(self.name_server()));
        out
    }

    /// One poll of the stream, given what the poll of its socket yielded.
    ///
    /// The stream keeps nothing from one poll to the next, so what it yields
    /// depends on `polled` and on its name server alone.
    pub fn poll(&mut self, polled: SocketPoll) -> (out: StreamPoll)
        ensures
            out@ == received(old(self).name_server(), polled@),
            *final(self) == *old(self),
    {
        match polled {
            SocketPoll::NotReady => StreamPoll::NotReady,
            SocketPoll::Datagram(message) => {
                let from_name_server = message.addr() == self.name_server;
                StreamPoll::Message { message, from_name_server }
            },
            SocketPoll::Closed => StreamPoll::Finished,
            SocketPoll::Failed(io) => StreamPoll::Failed(ProtoError::from(io)),
        }
    }
}

/// What one poll of the socket's setup yielded.
#[derive(Debug)]
pub enum BindPoll {
    /// The socket is not bound yet.
    NotReady,
    /// The socket is bound and ready for use.
    Bound,
    /// The socket could not be set up.
    Failed(std::io::Error),
}

/// What one poll of a pending connection yields.
#[derive(Debug)]
pub enum ConnectPoll {
    /// The stream is not there yet: poll again when the socket is ready.
    NotReady,
    /// The stream, ready to be polled for messages.
    Ready(UdpClientStream),
    /// The socket could not be set up; there is no stream.
    Failed(ProtoError),
}

/// Whether `out` is what a pending connection for `name_server` yields when
/// the setup of its socket yielded `bound`.
///
/// There is a stream exactly when the socket is bound, and it is a stream for
/// `name_server`; a failure of the setup is the failure of the connection, and
/// there is nothing in between.
pub open spec fn connected(name_server: SocketAddress, bound: BindPoll, out: ConnectPoll) -> bool {
    match bound {
        BindPoll::NotReady => out is NotReady,
        BindPoll::Bound => out matches ConnectPoll::Ready(stream) && stream.name_server()
            == name_server,
        BindPoll::Failed(io) => out == ConnectPoll::Failed(ProtoError { io }),
    }
}

/// A pending connection: resolves to a [`UdpClientStream`] once its socket is
/// bound, or fails with the error of the socket's setup.
#[derive(Debug)]
#[must_use]
pub struct UdpClientConnect {
    name_server: SocketAddress,
}

impl UdpClientConnect {
    /// The address the stream is being made for.
    pub closed spec fn name_server(&self) -> SocketAddress {
        self.name_server
    }

    /// One poll of the pending connection, given what the poll of the socket's
    /// setup yielded. The connection keeps nothing from one poll to the next.
    pub fn poll(&mut self, bound: BindPoll) -> (out: ConnectPoll)
        ensures
            connected(old(self).name_server(), bound, out),
            *final(self) == *old(self),
    {
        match bound {
            BindPoll::NotReady => ConnectPoll::NotReady,
            BindPoll::Bound => ConnectPoll::Ready(UdpClientStream { name_server: self.name_server }),
            BindPoll::Failed(io) => ConnectPoll::Failed(ProtoError::from(io)),
        }
    }
}

} // verus!
