use sfu::credentials::DtlsRole;
use sfu::description::RTCSessionDescription;
use sfu::error::Error;
use sfu::signaling::{handle_signaling_message, SignalingProtocolMessage};
use sfu::{DTLSMessageEvent, MessageEvent, RTPMessageEvent};
use sfu::transport::SocketAddress;
use sfu::{
    Candidate, Certificate, ConnectionCredentials, Fingerprint, ServerConfig, ServerStates,
};

fn test_certificate() -> Certificate {
    Certificate::new(vec![Fingerprint::new(
        String::from("sha-256"),
        String::from("AA:BB:CC"),
    )])
}

fn test_states() -> ServerStates {
    let config = ServerConfig::new(vec![test_certificate()]).with_idle_timeout_millis(30000);
    ServerStates::new(config, SocketAddress::new(String::from("10.0.0.1"), 4000))
        .expect("valid configuration")
}

fn data_only_offer() -> String {
    String::from(
        "v=0\r\n\
         o=- 4 2 IN IP4 127.0.0.1\r\n\
         s=-\r\n\
         t=0 0\r\n\
         a=ice-ufrag:remoteUfrag\r\n\
         a=ice-pwd:remotePwdremotePwd\r\n\
         a=fingerprint:sha-256 11:22:33\r\n\
         a=setup:actpass\r\n\
         m=application 9 UDP/DTLS/SCTP webrtc-datachannel\r\n\
         a=mid:0\r\n",
    )
}

fn fixed_credentials(ufrag: &str) -> ConnectionCredentials {
    ConnectionCredentials {
        ice_ufrag: String::from(ufrag),
        ice_pwd: String::from("passwordpassword"),
        dtls_role: DtlsRole::Server,
        fingerprints: vec![],
    }
}

fn dummy_candidate(ufrag: &str, endpoint_id: u64) -> Candidate {
    Candidate::new(
        1,
        endpoint_id,
        fixed_credentials("remote"),
        fixed_credentials(ufrag),
        RTCSessionDescription::offer(String::from("offer")),
        RTCSessionDescription::offer(String::from("answer")),
        0,
    )
}

#[test]
fn empty_certificate_set_is_rejected() {
    let config = ServerConfig::new(vec![]);
    let r = ServerStates::new(config, SocketAddress::new(String::from("10.0.0.1"), 4000));
    assert!(matches!(r, Err(Error::InvalidCertificate)));
}

#[test]
fn certificate_without_fingerprint_is_rejected() {
    let config = ServerConfig::new(vec![Certificate::new(vec![])]);
    let r = ServerStates::new(config, SocketAddress::new(String::from("10.0.0.1"), 4000));
    assert!(matches!(r, Err(Error::InvalidCertificate)));
}

#[test]
fn accept_offer_returns_an_answer_and_registers_a_candidate() {
    let mut states = test_states();
    let offer = RTCSessionDescription::offer(data_only_offer());
    let answer = states.accept_offer(1, 10, offer).expect("answer");
    assert!(answer.sdp.starts_with("v=0\r\no=- 1 2 IN IP4 0.0.0.0\r\n"));
    assert!(answer.sdp.contains("m=application 9 UDP/DTLS/SCTP webrtc-datachannel\r\n"));
    assert!(answer.sdp.contains("a=sctp-port:5000\r\n"));
    assert!(answer.sdp.contains("a=fingerprint:sha-256 AA:BB:CC\r\n"));
    assert!(answer.sdp.contains("a=ice-lite\r\n"));
    assert_eq!(states.session_count(), 1);
    assert_eq!(states.candidate_count(), 1);
    assert!(states.get_session(&1).is_some());
    assert!(states.get_session(&2).is_none());
}

#[test]
fn malformed_offer_changes_nothing() {
    let mut states = test_states();
    let offer = RTCSessionDescription::offer(String::from("garbage"));
    let r = states.accept_offer(1, 10, offer);
    assert!(matches!(r, Err(Error::SdpParse)));
    assert_eq!(states.session_count(), 0);
    assert_eq!(states.candidate_count(), 0);
}

#[test]
fn two_offers_reuse_one_session() {
    let mut states = test_states();
    let first = RTCSessionDescription::offer(data_only_offer());
    let second = RTCSessionDescription::offer(data_only_offer());
    states.accept_offer(5, 100, first).expect("first answer");
    states.accept_offer(5, 200, second).expect("second answer");
    assert_eq!(states.session_count(), 1, "the same session id reuses one session");
    assert_eq!(states.candidate_count(), 2, "each endpoint registers one candidate");
}

#[test]
fn offer_with_unmidded_video_registers_no_candidate() {
    let mut states = test_states();
    let offer = RTCSessionDescription::offer(String::from(
        "v=0\r\n\
         o=- 4 2 IN IP4 127.0.0.1\r\n\
         s=-\r\n\
         t=0 0\r\n\
         a=ice-ufrag:remoteUfrag\r\n\
         a=ice-pwd:remotePwdremotePwd\r\n\
         m=video 9 UDP/TLS/RTP/SAVPF 96\r\n\
         a=sendrecv\r\n",
    ));
    let r = states.accept_offer(1, 10, offer);
    assert!(matches!(r, Err(Error::RemoteDescriptionWithoutMidValue)));
    assert_eq!(states.candidate_count(), 0, "a failed negotiation must not register a candidate");
    assert_eq!(states.session_count(), 1, "the session was created before matching failed");
}

#[test]
fn colliding_usernames_replace_the_stored_candidate() {
    let mut states = test_states();
    let replaced_first = states.add_candidate(dummy_candidate("sameUfrag", 1));
    assert!(!replaced_first);
    assert_eq!(states.candidate_count(), 1);
    let replaced_second = states.add_candidate(dummy_candidate("sameUfrag", 2));
    assert!(replaced_second, "the second insert replaces the first");
    assert_eq!(states.candidate_count(), 1, "the table size stays constant");
    let stored = states.find_candidate(&String::from("sameUfrag")).expect("entry");
    assert_eq!(stored.endpoint_id, 2, "the later candidate wins");
}

#[test]
fn candidates_can_be_removed_once() {
    let mut states = test_states();
    states.add_candidate(dummy_candidate("u1", 1));
    assert!(states.remove_candidate(&String::from("u1")));
    assert!(!states.remove_candidate(&String::from("u1")));
    assert!(states.find_candidate(&String::from("u1")).is_none());
    assert_eq!(states.candidate_count(), 0);
}

#[test]
fn srtp_contexts_are_stored_by_address_key() {
    let mut states = test_states();
    let key = vec![0u8; 16];
    let salt = vec![0u8; 14];
    let local = webrtc_srtp::context::Context::new(
        &key,
        &salt,
        webrtc_srtp::protection_profile::ProtectionProfile::Aes128CmHmacSha1_80,
        None,
        None,
    )
    .expect("srtp context");
    let addr = SocketAddress::new(String::from("192.168.0.9"), 50000);
    states.add_local_srtp_context(addr.key(), local);
    assert!(states.find_local_srtp_context(&String::from("192.168.0.9:50000")).is_some());
    assert!(states.find_local_srtp_context(&String::from("192.168.0.9:50001")).is_none());
    assert!(states.find_remote_srtp_context(&String::from("192.168.0.9:50000")).is_none());
}

#[test]
fn dispatch_offer_replies_with_an_answer() {
    let mut states = test_states();
    let request = SignalingProtocolMessage::Offer {
        session_id: 3,
        endpoint_id: 4,
        offer_sdp: bytes::Bytes::from(data_only_offer().into_bytes()),
    };
    match handle_signaling_message(&mut states, request) {
        SignalingProtocolMessage::Answer { session_id, endpoint_id, answer_sdp } => {
            assert_eq!(session_id, 3);
            assert_eq!(endpoint_id, 4);
            let text = String::from_utf8(answer_sdp.to_vec()).expect("utf-8 answer");
            assert!(text.starts_with("v=0\r\n"));
            assert!(text.contains("m=application 9 UDP/DTLS/SCTP webrtc-datachannel\r\n"));
        }
        _ => panic!("an offer must be answered with an answer reply"),
    }
    assert_eq!(states.candidate_count(), 1);
}

#[test]
fn dispatch_bad_offer_replies_with_the_error_reason() {
    let mut states = test_states();
    let request = SignalingProtocolMessage::Offer {
        session_id: 3,
        endpoint_id: 4,
        offer_sdp: bytes::Bytes::from(String::from("garbage").into_bytes()),
    };
    match handle_signaling_message(&mut states, request) {
        SignalingProtocolMessage::Failure { session_id, endpoint_id, reason } => {
            assert_eq!(session_id, 3);
            assert_eq!(endpoint_id, 4);
            assert_eq!(reason.to_vec(), b"SdpParse".to_vec());
        }
        _ => panic!("a failed offer must be answered with a failure reply"),
    }
    assert_eq!(states.candidate_count(), 0);
}

#[test]
fn dispatch_non_utf8_offer_is_a_parse_failure() {
    let mut states = test_states();
    let request = SignalingProtocolMessage::Offer {
        session_id: 3,
        endpoint_id: 4,
        offer_sdp: bytes::Bytes::from(vec![0xffu8, 0xfe, 0x00]),
    };
    match handle_signaling_message(&mut states, request) {
        SignalingProtocolMessage::Failure { reason, .. } => {
            assert_eq!(reason.to_vec(), b"SdpParse".to_vec());
        }
        _ => panic!("a non-utf-8 offer must be refused"),
    }
}

#[test]
fn dispatch_leave_is_acknowledged() {
    let mut states = test_states();
    let request = SignalingProtocolMessage::Leave { session_id: 8, endpoint_id: 9 };
    match handle_signaling_message(&mut states, request) {
        SignalingProtocolMessage::Okay { session_id, endpoint_id } => {
            assert_eq!(session_id, 8);
            assert_eq!(endpoint_id, 9);
        }
        _ => panic!("a leave must be acknowledged"),
    }
}

#[test]
fn dispatch_refuses_response_kinds_as_requests() {
    let mut states = test_states();
    let requests = vec![
        SignalingProtocolMessage::Okay { session_id: 1, endpoint_id: 2 },
        SignalingProtocolMessage::Failure {
            session_id: 1,
            endpoint_id: 2,
            reason: bytes::Bytes::from(vec![]),
        },
        SignalingProtocolMessage::Answer {
            session_id: 1,
            endpoint_id: 2,
            answer_sdp: bytes::Bytes::from(vec![]),
        },
    ];
    for request in requests {
        match handle_signaling_message(&mut states, request) {
            SignalingProtocolMessage::Failure { session_id, endpoint_id, reason } => {
                assert_eq!(session_id, 1);
                assert_eq!(endpoint_id, 2);
                assert_eq!(reason.to_vec(), b"Invalid Request".to_vec());
            }
            _ => panic!("a response kind on the request path must be refused"),
        }
    }
}

#[test]
fn message_events_classify_by_plane() {
    let control = MessageEvent::DTLS(DTLSMessageEvent::RAW(bytes::BytesMut::new()));
    assert!(control.is_control_plane());
    assert!(!control.is_media_plane());
    let media = MessageEvent::RTP(RTPMessageEvent::RAW(bytes::BytesMut::new()));
    assert!(media.is_media_plane());
    assert!(!media.is_control_plane());
}
