//! What holds of a stream over its whole life: of every address, every
//! payload and every run of polls.

use crate::address::SocketAddress;
use crate::error::ProtoError;
use crate::message::MessageView;
use crate::stream::{connected, received, BindPoll, ConnectPoll, SocketPollView, StreamPollView};
use vstd::prelude::*;

verus! {

/// What a stream for `name_server` yields, poll by poll, when its socket
/// yields `polled`, poll by poll.
pub open spec fn received_all(
    name_server: SocketAddress,
    polled: Seq<SocketPollView>,
) -> Seq<StreamPollView> {
    Seq::new(polled.len(), |i: int| received(name_server, polled[i]))
}

/// The datagrams among what a socket yielded, in the order they arrived.
pub open spec fn datagrams(polled: Seq<SocketPollView>) -> Seq<MessageView>
    decreases polled.len(),
{
    if polled.len() == 0 {
        Seq::empty()
    } else {
        match polled.last() {
            SocketPollView::Datagram(message) => datagrams(polled.drop_last()).push(message),
            _ => datagrams(polled.drop_last()),
        }
    }
}

/// The messages among what a stream yielded, in the order it yielded them.
pub open spec fn messages(out: Seq<StreamPollView>) -> Seq<MessageView>
    decreases out.len(),
{
    if out.len() == 0 {
        Seq::empty()
    } else {
        match out.last() {
            StreamPollView::Message { message, .. } => messages(out.drop_last()).push(message),
            _ => messages(out.drop_last()),
        }
    }
}

/// What the socket yields when a peer that echoes has sent `sent` back: a
/// datagram with the payload of `sent`, from the address `sent` went to.
pub open spec fn echo(sent: MessageView) -> SocketPollView {
    SocketPollView::Datagram(sent)
}

/// A payload sent to a peer and echoed by it comes back byte for byte: the
/// stream yields a message with that payload and the peer's address, whoever
/// the peer is.
pub proof fn law_echo_comes_back(name_server: SocketAddress, peer: SocketAddress, payload: Seq<u8>)
    ensures
        received(name_server, echo(MessageView { bytes: payload, addr: peer }))
            matches StreamPollView::Message { message, .. } && message.bytes == payload
            && message.addr == peer,
{
}

/// A datagram from an address other than the name server is not dropped: the
/// stream yields it as a message, unchanged, and only notes where it is from.
pub proof fn law_stranger_is_heard(name_server: SocketAddress, datagram: MessageView)
    requires
        datagram.addr != name_server,
    ensures
        received(name_server, SocketPollView::Datagram(datagram)) == (StreamPollView::Message {
            message: datagram,
            from_name_server: false,
        }),
{
}

/// Over any run of polls the stream yields one thing for each thing its
/// socket yields, a message exactly where a datagram arrived, and that
/// datagram: the messages are the datagrams, none missing, none added, none
/// out of order.
pub proof fn law_each_datagram_once(name_server: SocketAddress, polled: Seq<SocketPollView>)
    ensures
        received_all(name_server, polled).len() == polled.len(),
        forall|i: int|
            0 <= i < polled.len() ==> (#[trigger] received_all(name_server, polled)[i]
                is Message <==> polled[i] is Datagram),
        forall|i: int|
            0 <= i < polled.len() && polled[i] is Datagram ==> (#[trigger] received_all(
                name_server,
                polled,
            )[i])->message == polled[i]->Datagram_0,
        messages(received_all(name_server, polled)) == datagrams(polled),
    decreases polled.len(),
{
    if polled.len() > 0 {
        law_each_datagram_once(name_server, polled.drop_last());
        assert(received_all(name_server, polled).drop_last() =~= received_all(
            name_server,
            polled.drop_last(),
        ));
    }
}

/// The end of the socket's datagrams is signalled once. Where poll `end` of
/// the socket is the first to report the end, and the socket yields nothing
/// after it, poll `end` of the stream reports the end of its messages, no
/// other poll does, and no message and no error follows.
pub proof fn law_end_is_signalled_once(
    name_server: SocketAddress,
    polled: Seq<SocketPollView>,
    end: int,
)
    requires
        0 <= end < polled.len(),
        polled[end] is Closed,
        forall|i: int| 0 <= i < end ==> !(#[trigger] polled[i] is Closed),
        forall|i: int| end < i < polled.len() ==> #[trigger] polled[i] is NotReady,
    ensures
        received_all(name_server, polled)[end] is Finished,
        forall|i: int|
            0 <= i < polled.len() && i != end ==> !(#[trigger] received_all(name_server, polled)[i]
                is Finished),
        forall|i: int|
            end < i < polled.len() ==> #[trigger] received_all(name_server, polled)[i] is NotReady,
{
}

/// Without a bound socket there is no stream. Over any run of polls of a
/// pending connection whose socket is never bound, no poll yields a stream,
/// and each failure of the setup is yielded as the connection's failure.
pub proof fn law_no_stream_unless_bound(
    name_server: SocketAddress,
    bound: Seq<BindPoll>,
    out: Seq<ConnectPoll>,
)
    requires
        out.len() == bound.len(),
        forall|i: int| 0 <= i < bound.len() ==> connected(name_server, #[trigger] bound[i], out[i]),
        forall|i: int| 0 <= i < bound.len() ==> !(#[trigger] bound[i] is Bound),
    ensures
        forall|i: int| 0 <= i < out.len() ==> !(#[trigger] out[i] is Ready),
        forall|i: int|
            0 <= i < out.len() && bound[i] is Failed ==> #[trigger] out[i] == ConnectPoll::Failed(
                ProtoError { io: bound[i]->Failed_0 },
            ),
{
    assert forall|i: int| 0 <= i < out.len() implies !(#[trigger] out[i] is Ready) by {
        assert(connected(name_server, bound[i], out[i]));
    }
    assert forall|i: int| 0 <= i < out.len() && bound[i] is Failed implies #[trigger] out[i]
        == ConnectPoll::Failed(ProtoError { io: bound[i]->Failed_0 }) by {
        assert(connected(name_server, bound[i], out[i]));
    }
}

} // verus!
