//! Negotiation and session-state core of a selective forwarding unit.
//!
//! The library turns an incoming session-description offer into a
//! validated answer and keeps the per-endpoint state this requires: it
//! parses the offer, derives both sides' ICE and DTLS credentials,
//! matches the offer's media lines against the session's local
//! transceivers in order, serializes the answer, and registers the
//! resulting candidate under its ICE username — the key inbound packets
//! are demultiplexed by. The signaling protocol message shapes and the
//! classification envelope for demultiplexed datagrams are defined here
//! as well.
//!
//! Socket I/O, the DTLS/SRTP/SCTP data paths, and the forwarding loop
//! live outside this crate; one thread is expected to own a
//! [`ServerStates`] value exclusively and serve all signaling requests
//! through [`signaling::handle_signaling_message`].

pub mod candidate;
pub mod credentials;
pub mod description;
pub mod error;
pub mod laws;
pub mod marshal;
pub mod messages;
pub mod session;
pub mod signaling;
pub mod states;
pub mod transceiver;
pub mod transport;

pub use candidate::Candidate;
pub use credentials::{Certificate, ConnectionCredentials, DtlsRole, Fingerprint};
pub use description::{Attr, MediaDesc, ParsedSdp, RTCSessionDescription, SdpType};
pub use error::Error;
pub use messages::{DataChannelMessage, DTLSMessageEvent, MessageEvent, RTPMessageEvent, TaggedMessageEvent};
pub use signaling::SignalingProtocolMessage;
pub use session::Session;
pub use states::{ServerConfig, ServerStates};
pub use transceiver::{Codec, CodecType, Direction, MediaSection, RtpTransceiver};
pub use transport::{SocketAddress, TransportContext};
