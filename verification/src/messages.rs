use vstd::prelude::*;

use crate::transport::TransportContext;

verus! {

/// A growable byte buffer of the bytes crate; datagram payloads arrive
/// and leave in this form. Opaque here: this core tags buffers, it does
/// not read them.
#[verifier::external_type_specification]
#[verifier::external_body]
pub struct ExBytesMut(bytes::BytesMut);

/// A parsed RTP packet of the rtp crate, carried through unread.
#[verifier::external_type_specification]
#[verifier::external_body]
pub struct ExRtpPacket(rtp::packet::Packet);

/// A parsed list of RTCP packets of the rtcp crate, carried through
/// unread.
#[verifier::external_type_specification]
#[verifier::external_body]
pub struct ExCompoundPacket(rtcp::compound_packet::CompoundPacket);

/// What kind of payload a data-channel message carries.
#[derive(Clone, Copy, Debug, PartialEq, Eq, Structural)]
pub enum DataChannelMessageType {
    Unspecified,
    Control,
    Binary,
    Text,
}

/// Sequencing and reliability parameters of a data-channel message, by
/// direction.
pub enum DataChannelMessageParams {
    Inbound { seq_num: u16 },
    Outbound { ordered: bool, reliable: bool, max_rtx_count: u32, max_rtx_millis: u32 },
}

/// One decoded data-channel message of an SCTP association.
pub struct DataChannelMessage {
    pub association_handle: usize,
    pub stream_id: u16,
    pub data_message_type: DataChannelMessageType,
    pub params: DataChannelMessageParams,
    pub payload: bytes::BytesMut,
}

/// A control-plane payload: raw DTLS bytes, a decoded data-channel
/// message, or decrypted application bytes.
pub enum DTLSMessageEvent {
    RAW(bytes::BytesMut),
    SCTP(DataChannelMessage),
    APPLICATION(bytes::BytesMut),
}

/// A media-plane payload: raw bytes, a parsed RTP packet, or a parsed
/// RTCP packet list.
pub enum RTPMessageEvent {
    RAW(bytes::BytesMut),
    RTP(rtp::packet::Packet),
    RTCP(rtcp::compound_packet::CompoundPacket),
}

/// The classification of one inbound datagram: control plane (DTLS) or
/// media plane (RTP/RTCP).
pub enum MessageEvent {
    DTLS(DTLSMessageEvent),
    RTP(RTPMessageEvent),
}

impl MessageEvent {
    /// Whether this event belongs to the control plane: DTLS handshake,
    /// SCTP data-channel, or decrypted application traffic.
    pub fn is_control_plane(&self) -> (r: bool)
        ensures
            r == (self is DTLS),
    {
        match self {
            MessageEvent::DTLS(_) => true,
            MessageEvent::RTP(_) => false,
        }
    }

    /// Whether this event belongs to the media plane: RTP or RTCP
    /// traffic.
    pub fn is_media_plane(&self) -> (r: bool)
        ensures
            r == (self is RTP),
    {
        match self {
            MessageEvent::DTLS(_) => false,
            MessageEvent::RTP(_) => true,
        }
    }
}

/// The envelope a forwarding loop attaches to every demultiplexed
/// datagram: its arrival time in milliseconds, the transport pair it
/// arrived on, and its classified payload.
pub struct TaggedMessageEvent {
    pub now_millis: u64,
    pub transport: TransportContext,
    pub message: MessageEvent,
}

} // verus!
