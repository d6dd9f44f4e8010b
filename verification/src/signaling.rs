use vstd::prelude::*;

use vstd::string::StrSliceExecFns;
use vstd::utf8::{decode_utf8, encode_utf8, valid_utf8};

use crate::description::{RTCSessionDescription, SdpType};
use crate::error::{message_of, Error};
use crate::states::{accepted_offer, ServerStates};

verus! {

/// An immutable byte buffer of the bytes crate: the payload form of the
/// signaling wire contract.
#[verifier::external_type_specification]
#[verifier::external_body]
pub struct ExBytes(bytes::Bytes);

/// The bytes a `Bytes` buffer holds.
pub uninterp spec fn bytes_content(b: bytes::Bytes) -> Seq<u8>;

/// Relies on Bytes dereferencing to its byte slice: the copy returned
/// here is exactly the buffer's content.
#[verifier::external_body]
fn bytes_to_vec(b: &bytes::Bytes) -> (r: Vec<u8>)
    ensures
        r@ == bytes_content(*b),
{
    b.as_ref().to_vec()
}

/// Relies on `Bytes::from(Vec<u8>)`: the buffer holds exactly the given
/// bytes.
#[verifier::external_body]
fn bytes_from_vec(v: Vec<u8>) -> (r: bytes::Bytes)
    ensures
        bytes_content(r) == v@,
{
    bytes::Bytes::from(v)
}

/// Relies on `String::from_utf8`: it succeeds exactly on valid UTF-8
/// and returns the decoded characters.
#[verifier::external_body]
fn utf8_to_string(v: Vec<u8>) -> (r: Option<String>)
    ensures
        match r {
            Some(s) => valid_utf8(v@) && s@ == decode_utf8(v@),
            None => !valid_utf8(v@),
        },
{
    match String::from_utf8(v) {
        Ok(s) => Some(s),
        Err(_) => None,
    }
}

/// The signaling wire contract between a transport thread and the
/// owning thread: offer and leave requests, and the acknowledgement,
/// error, and answer replies. Each request is answered by exactly one
/// reply.
pub enum SignalingProtocolMessage {
    Okay { session_id: u64, endpoint_id: u64 },
    Failure { session_id: u64, endpoint_id: u64, reason: bytes::Bytes },
    Offer { session_id: u64, endpoint_id: u64, offer_sdp: bytes::Bytes },
    Answer { session_id: u64, endpoint_id: u64, answer_sdp: bytes::Bytes },
    Leave { session_id: u64, endpoint_id: u64 },
}

/// Nothing in the registry moved between `pre` and `post`.
pub open spec fn states_unchanged(pre: &ServerStates, post: &ServerStates) -> bool {
    &&& post.config == pre.config
    &&& post.local_addr == pre.local_addr
    &&& post.sessions@ == pre.sessions@
    &&& post.candidates@ == pre.candidates@
    &&& post.local_srtp_contexts@ == pre.local_srtp_contexts@
    &&& post.remote_srtp_contexts@ == pre.remote_srtp_contexts@
}

/// The reply an offer outcome is reported as: the answer text encoded
/// as bytes, or the error's reason.
pub open spec fn offer_reply(
    r: Result<RTCSessionDescription, Error>,
    session_id: u64,
    endpoint_id: u64,
    reply: SignalingProtocolMessage,
) -> bool {
    match r {
        Ok(answer) => reply matches SignalingProtocolMessage::Answer {
            session_id: rs,
            endpoint_id: re,
            answer_sdp,
        } && rs == session_id && re == endpoint_id && bytes_content(answer_sdp) == encode_utf8(
            answer@.sdp,
        ),
        Err(e) => reply matches SignalingProtocolMessage::Failure {
            session_id: rs,
            endpoint_id: re,
            reason,
        } && rs == session_id && re == endpoint_id && bytes_content(reason) == encode_utf8(
            message_of(e),
        ),
    }
}

/// The one reply each request kind is answered with.
///
/// An offer whose payload is not UTF-8 is refused as a parse failure;
/// otherwise the offer runs through the registry's offer acceptance and
/// the reply reports its outcome. A leave is acknowledged without
/// touching the registry — candidate cleanup on leave is not
/// implemented. A reply kind arriving as a request is itself invalid
/// and is refused without touching the registry.
pub open spec fn dispatch_reply(
    pre: &ServerStates,
    post: &ServerStates,
    request: SignalingProtocolMessage,
    reply: SignalingProtocolMessage,
) -> bool {
    match request {
        SignalingProtocolMessage::Offer { session_id, endpoint_id, offer_sdp } => {
            let payload = bytes_content(offer_sdp);
            if !valid_utf8(payload) {
                &&& states_unchanged(pre, post)
                &&& reply matches SignalingProtocolMessage::Failure {
                    session_id: rs,
                    endpoint_id: re,
                    reason,
                } && rs == session_id && re == endpoint_id && bytes_content(reason)
                    == encode_utf8(message_of(Error::SdpParse))
            } else {
                exists|r: Result<RTCSessionDescription, Error>|
                    #[trigger] accepted_offer(
                        pre,
                        post,
                        session_id,
                        endpoint_id,
                        decode_utf8(payload),
                        r,
                    ) && offer_reply(r, session_id, endpoint_id, reply)
            }
        },
        SignalingProtocolMessage::Leave { session_id, endpoint_id } => {
            &&& states_unchanged(pre, post)
            &&& reply matches SignalingProtocolMessage::Okay {
                session_id: rs,
                endpoint_id: re,
            } && rs == session_id && re == endpoint_id
        },
        SignalingProtocolMessage::Okay { session_id, endpoint_id } => invalid_request_reply(
            pre,
            post,
            session_id,
            endpoint_id,
            reply,
        ),
        SignalingProtocolMessage::Failure { session_id, endpoint_id, .. } => invalid_request_reply(
            pre,
            post,
            session_id,
            endpoint_id,
            reply,
        ),
        SignalingProtocolMessage::Answer { session_id, endpoint_id, .. } => invalid_request_reply(
            pre,
            post,
            session_id,
            endpoint_id,
            reply,
        ),
    }
}

/// The refusal a response-only message kind receives when it arrives on
/// the request path.
pub open spec fn invalid_request_reply(
    pre: &ServerStates,
    post: &ServerStates,
    session_id: u64,
    endpoint_id: u64,
    reply: SignalingProtocolMessage,
) -> bool {
    &&& states_unchanged(pre, post)
    &&& reply matches SignalingProtocolMessage::Failure {
        session_id: rs,
        endpoint_id: re,
        reason,
    } && rs == session_id && re == endpoint_id && bytes_content(reason) == encode_utf8(
        "Invalid Request"@,
    )
}

/// Routes one signaling request to its handler and returns the single
/// reply the requester is owed; every path, error paths included,
/// produces exactly one reply.
pub fn handle_signaling_message(
    server_states: &mut ServerStates,
    request: SignalingProtocolMessage,
) -> (reply: SignalingProtocolMessage)
    requires
        old(server_states).wf(),
    ensures
        final(server_states).wf(),
        dispatch_reply(old(server_states), final(server_states), request, reply),
{
    match request {
        SignalingProtocolMessage::Offer { session_id, endpoint_id, offer_sdp } => {
            let payload = bytes_to_vec(&offer_sdp);
            match utf8_to_string(payload) {
                Some(sdp_text) => {
                    let offer = RTCSessionDescription::offer(sdp_text);
                    let result = server_states.accept_offer(session_id, endpoint_id, offer);
                    match result {
                        Ok(answer) => {
                            let answer_bytes = answer.sdp.as_str().as_bytes_vec();
                            let reply = SignalingProtocolMessage::Answer {
                                session_id,
                                endpoint_id,
                                answer_sdp: bytes_from_vec(answer_bytes),
                            };
                            proof {
                                assert(offer_reply(
                                    Ok::<RTCSessionDescription, Error>(answer),
                                    session_id,
                                    endpoint_id,
                                    reply,
                                ));
                            }
                            reply
                        },
                        Err(e) => {
                            let reason = e.message().as_bytes_vec();
                            let reply = SignalingProtocolMessage::Failure {
                                session_id,
                                endpoint_id,
                                reason: bytes_from_vec(reason),
                            };
                            proof {
                                assert(offer_reply(
                                    Err::<RTCSessionDescription, Error>(e),
                                    session_id,
                                    endpoint_id,
                                    reply,
                                ));
                            }
                            reply
                        },
                    }
                },
                None => {
                    let reason = Error::SdpParse.message().as_bytes_vec();
                    SignalingProtocolMessage::Failure {
                        session_id,
                        endpoint_id,
                        reason: bytes_from_vec(reason),
                    }
                },
            }
        },
        SignalingProtocolMessage::Leave { session_id, endpoint_id } => {
            SignalingProtocolMessage::Okay { session_id, endpoint_id }
        },
        SignalingProtocolMessage::Okay { session_id, endpoint_id } => invalid_request(
            session_id,
            endpoint_id,
        ),
        SignalingProtocolMessage::Failure { session_id, endpoint_id, .. } => invalid_request(
            session_id,
            endpoint_id,
        ),
        SignalingProtocolMessage::Answer { session_id, endpoint_id, .. } => invalid_request(
            session_id,
            endpoint_id,
        ),
    }
}

fn invalid_request(session_id: u64, endpoint_id: u64) -> (reply: SignalingProtocolMessage)
    ensures
        reply matches SignalingProtocolMessage::Failure {
            session_id: rs,
            endpoint_id: re,
            reason,
        } && rs == session_id && re == endpoint_id && bytes_content(reason) == encode_utf8(
            "Invalid Request"@,
        ),
{
    let reason = "Invalid Request".as_bytes_vec();
    SignalingProtocolMessage::Failure { session_id, endpoint_id, reason: bytes_from_vec(reason) }
}

} // verus!
