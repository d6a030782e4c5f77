//! How the logical channels map onto QUIC: the protocol list, and which stream
//! carries which channel. There the stream is the channel, so no tag is sent.
use crate::agentproto::session::WIRE_PROTOCOL_ID;
use crate::bus::message::bytes_of;
use crate::proto::codec::Channel;
use vstd::prelude::*;
use vstd::utf8::encode_utf8;

verus! {

/// The ALPN protocol list: a single entry, the wire-framing identifier as bytes.
#[must_use]
pub fn alpn_protocols() -> (v: Vec<Vec<u8>>)
    ensures
        v@.len() == 1,
        v@[0]@ == encode_utf8(WIRE_PROTOCOL_ID@),
{
    let mut v: Vec<Vec<u8>> = Vec::new();
    v.push(bytes_of(WIRE_PROTOCOL_ID));
    v
}

/// How a channel maps onto a QUIC stream.
#[derive(Debug, Clone, Copy, PartialEq, Eq, Structural)]
pub enum ChannelStream {
    /// A bidirectional stream that the agent opens.
    Bidirectional,
    /// A unidirectional agent-to-gateway stream.
    UnidirectionalToGateway,
}

impl ChannelStream {
    /// The stream kind carrying `channel`: only control goes both ways.
    #[must_use]
    pub fn for_channel(channel: Channel) -> (s: Self)
        ensures
            s == (if channel == Channel::Control {
                ChannelStream::Bidirectional
            } else {
                ChannelStream::UnidirectionalToGateway
            }),
    {
        match channel {
            Channel::Control => ChannelStream::Bidirectional,
            Channel::Heartbeat | Channel::Log | Channel::Metering => {
                ChannelStream::UnidirectionalToGateway
            },
        }
    }
}

/// One channel alone goes both ways: the one that enrollment and jobs come on. The three
/// others, and no other, go to the gateway only.
pub proof fn control_alone_goes_both_ways(
    a: Channel,
    b: Channel,
    s: ChannelStream,
    t: ChannelStream,
)
    requires
        call_ensures(ChannelStream::for_channel, (a,), s),
        call_ensures(ChannelStream::for_channel, (b,), t),
    ensures
        s == ChannelStream::Bidirectional <==> a.wire_tag() == 0,
        s == ChannelStream::Bidirectional && t == ChannelStream::Bidirectional ==> a == b,
{
}

} // verus!
