use sfu::credentials::DtlsRole;
use sfu::description::RTCSessionDescription;
use sfu::error::Error;
use sfu::marshal::u64_to_string;
use sfu::transceiver::{Codec, CodecType, Direction, RtpTransceiver};
use sfu::transport::SocketAddress;
use sfu::{Attr, Certificate, ConnectionCredentials, Fingerprint, MediaDesc, Session};

fn test_certificate() -> Certificate {
    Certificate::new(vec![Fingerprint::new(
        String::from("sha-256"),
        String::from("AA:BB:CC"),
    )])
}

fn test_session() -> Session {
    Session::new(
        7,
        SocketAddress::new(String::from("10.0.0.1"), 4000),
        test_certificate(),
    )
}

fn fixed_local_credentials() -> ConnectionCredentials {
    ConnectionCredentials {
        ice_ufrag: String::from("LOCALUFRAG"),
        ice_pwd: String::from("LOCALPWDLOCALPWD"),
        dtls_role: DtlsRole::Server,
        fingerprints: vec![],
    }
}

fn data_only_offer() -> String {
    String::from(
        "v=0\r\n\
         o=- 4 2 IN IP4 127.0.0.1\r\n\
         s=-\r\n\
         t=0 0\r\n\
         a=ice-ufrag:remoteUfrag\r\n\
         a=ice-pwd:remotePwdremotePwd\r\n\
         a=fingerprint:sha-256 11:22:33\r\n\
         a=setup:actpass\r\n\
         m=application 9 UDP/DTLS/SCTP webrtc-datachannel\r\n\
         a=mid:0\r\n",
    )
}

fn audio_and_data_offer() -> String {
    String::from(
        "v=0\r\n\
         o=- 4 2 IN IP4 127.0.0.1\r\n\
         s=-\r\n\
         t=0 0\r\n\
         a=ice-ufrag:remoteUfrag\r\n\
         a=ice-pwd:remotePwdremotePwd\r\n\
         a=fingerprint:sha-256 11:22:33\r\n\
         a=setup:actpass\r\n\
         m=audio 9 UDP/TLS/RTP/SAVPF 111\r\n\
         a=mid:0\r\n\
         a=sendrecv\r\n\
         m=application 9 UDP/DTLS/SCTP webrtc-datachannel\r\n\
         a=mid:1\r\n",
    )
}

fn audio_transceiver(mid: &str) -> RtpTransceiver {
    RtpTransceiver::new(
        String::from(mid),
        CodecType::Audio,
        Direction::Sendrecv,
        vec![Codec::new(111, String::from("opus/48000/2"))],
    )
}

#[test]
fn decimal_rendering() {
    assert_eq!(u64_to_string(0), "0");
    assert_eq!(u64_to_string(7), "7");
    assert_eq!(u64_to_string(10), "10");
    assert_eq!(u64_to_string(65535), "65535");
    assert_eq!(u64_to_string(18446744073709551615), "18446744073709551615");
}

#[test]
fn address_key_format() {
    let a = SocketAddress::new(String::from("127.0.0.1"), 3478);
    assert_eq!(a.key(), "127.0.0.1:3478");
}

#[test]
fn direction_mirroring() {
    assert_eq!(Direction::Sendrecv.reverse(), Direction::Sendrecv);
    assert_eq!(Direction::Sendonly.reverse(), Direction::Recvonly);
    assert_eq!(Direction::Recvonly.reverse(), Direction::Sendonly);
    assert_eq!(Direction::Inactive.reverse(), Direction::Inactive);
}

#[test]
fn error_messages_name_the_error() {
    assert_eq!(Error::SdpParse.message(), "SdpParse");
    assert_eq!(Error::TransceiverMidNil.message(), "TransceiverMidNil");
    assert_eq!(
        Error::RemoteDescriptionWithoutMidValue.message(),
        "RemoteDescriptionWithoutMidValue"
    );
    assert_eq!(Error::MissingIceCredentials.message(), "MissingIceCredentials");
    assert_eq!(Error::InvalidCertificate.message(), "InvalidCertificate");
}

#[test]
fn media_attributes_are_read_in_order() {
    let m = MediaDesc {
        media_type: String::from("video"),
        attrs: vec![
            Attr { key: String::from("mid"), value: Some(String::from("5")) },
            Attr { key: String::from("recvonly"), value: None },
            Attr { key: String::from("sendonly"), value: None },
            Attr { key: String::from("rid"), value: Some(String::from("hi send")) },
            Attr { key: String::from("rid"), value: Some(String::from("lo send")) },
        ],
    };
    assert_eq!(sfu::description::get_mid_value(&m), Some(&String::from("5")));
    assert_eq!(sfu::description::get_peer_direction(&m), Direction::Recvonly);
    assert_eq!(sfu::description::get_kind(&m), CodecType::Video);
    assert_eq!(sfu::description::get_rids(&m), vec![String::from("hi"), String::from("lo")]);
}

#[test]
fn offer_parse_failure_is_reported() {
    let offer = RTCSessionDescription::offer(String::from("this is not a session description"));
    assert!(matches!(offer.unmarshal(), Err(Error::SdpParse)));
}

#[test]
fn remote_credentials_come_from_the_offer() {
    let offer = RTCSessionDescription::offer(data_only_offer());
    let parsed = offer.unmarshal().expect("offer parses");
    let creds = ConnectionCredentials::from_sdp(&parsed).expect("credentials present");
    assert_eq!(creds.ice_ufrag, "remoteUfrag");
    assert_eq!(creds.ice_pwd, "remotePwdremotePwd");
    assert_eq!(creds.dtls_role, DtlsRole::Auto);
    assert_eq!(creds.fingerprints.len(), 1);
    assert_eq!(creds.fingerprints[0].algorithm, "sha-256");
    assert_eq!(creds.fingerprints[0].value, "11:22:33");
}

#[test]
fn missing_ice_credentials_are_rejected() {
    let offer = RTCSessionDescription::offer(String::from(
        "v=0\r\n\
         o=- 4 2 IN IP4 127.0.0.1\r\n\
         s=-\r\n\
         t=0 0\r\n\
         m=application 9 UDP/DTLS/SCTP webrtc-datachannel\r\n\
         a=mid:0\r\n",
    ));
    let parsed = offer.unmarshal().expect("offer parses");
    assert!(matches!(
        ConnectionCredentials::from_sdp(&parsed),
        Err(Error::MissingIceCredentials)
    ));
}

#[test]
fn local_credentials_complement_the_remote_role() {
    let cert = test_certificate();
    let a = ConnectionCredentials::new(&cert, DtlsRole::Client);
    assert_eq!(a.dtls_role, DtlsRole::Server);
    let b = ConnectionCredentials::new(&cert, DtlsRole::Server);
    assert_eq!(b.dtls_role, DtlsRole::Client);
    let c = ConnectionCredentials::new(&cert, DtlsRole::Auto);
    assert_eq!(c.dtls_role, DtlsRole::Server);
    assert_eq!(c.ice_ufrag.len(), 16);
    assert_eq!(c.ice_pwd.len(), 32);
    assert_ne!(a.ice_ufrag, b.ice_ufrag);
    assert_eq!(c.fingerprints.len(), 1);
    assert_eq!(c.fingerprints[0].algorithm, "sha-256");
}

#[test]
fn data_only_answer_text_is_exact() {
    let session = test_session();
    let offer = RTCSessionDescription::offer(data_only_offer());
    let parsed = offer.unmarshal().expect("offer parses");
    let answer = session
        .create_pending_answer(&parsed, &fixed_local_credentials())
        .expect("answer");
    let expected = "v=0\r\n\
         o=- 7 2 IN IP4 0.0.0.0\r\n\
         s=-\r\n\
         t=0 0\r\n\
         a=ice-lite\r\n\
         a=fingerprint:sha-256 AA:BB:CC\r\n\
         a=group:BUNDLE 0\r\n\
         m=application 9 UDP/DTLS/SCTP webrtc-datachannel\r\n\
         c=IN IP4 10.0.0.1\r\n\
         a=setup:passive\r\n\
         a=mid:0\r\n\
         a=ice-ufrag:LOCALUFRAG\r\n\
         a=ice-pwd:LOCALPWDLOCALPWD\r\n\
         a=sctp-port:5000\r\n";
    assert_eq!(answer.sdp, expected);
}

#[test]
fn repeated_generation_is_deterministic() {
    let mut session = test_session();
    session.add_transceiver(audio_transceiver("0"));
    let offer = RTCSessionDescription::offer(audio_and_data_offer());
    let parsed = offer.unmarshal().expect("offer parses");
    let creds = fixed_local_credentials();
    let first = session.create_pending_answer(&parsed, &creds).expect("answer");
    let second = session.create_pending_answer(&parsed, &creds).expect("answer");
    assert_eq!(first.sdp, second.sdp);
}

#[test]
fn audio_and_data_scenario() {
    let mut session = test_session();
    session.add_transceiver(audio_transceiver("0"));
    let offer = RTCSessionDescription::offer(audio_and_data_offer());
    let parsed = offer.unmarshal().expect("offer parses");
    let answer = session
        .create_pending_answer(&parsed, &fixed_local_credentials())
        .expect("answer");
    let text = answer.sdp.as_str();

    let audio_at = text.find("m=audio 9 UDP/TLS/RTP/SAVPF 111\r\n").expect("audio line");
    let data_at = text
        .find("m=application 9 UDP/DTLS/SCTP webrtc-datachannel\r\n")
        .expect("application line");
    assert!(audio_at < data_at, "audio section must come first, as in the offer");

    assert!(text.contains("a=group:BUNDLE 0 1\r\n"));
    assert!(text.contains("a=mid:0\r\n"));
    assert!(text.contains("a=mid:1\r\n"));
    assert!(text.contains("a=rtpmap:111 opus/48000/2\r\n"));
    assert!(text.contains("a=sendrecv\r\n"));
    assert!(text.contains("a=sctp-port:5000\r\n"));
    assert!(text.contains("a=setup:passive\r\n"));

    let data_section = &text[data_at..];
    assert!(
        !data_section.contains("a=rtpmap:"),
        "the data section carries no codec lines"
    );
}

#[test]
fn mirrored_direction_for_sendonly_offer() {
    let mut session = test_session();
    session.add_transceiver(audio_transceiver("0"));
    let offer = RTCSessionDescription::offer(String::from(
        "v=0\r\n\
         o=- 4 2 IN IP4 127.0.0.1\r\n\
         s=-\r\n\
         t=0 0\r\n\
         a=ice-ufrag:remoteUfrag\r\n\
         a=ice-pwd:remotePwdremotePwd\r\n\
         m=audio 9 UDP/TLS/RTP/SAVPF 111\r\n\
         a=mid:0\r\n\
         a=sendonly\r\n",
    ));
    let parsed = offer.unmarshal().expect("offer parses");
    let answer = session
        .create_pending_answer(&parsed, &fixed_local_credentials())
        .expect("answer");
    assert!(answer.sdp.contains("a=recvonly\r\n"));
    assert!(!answer.sdp.contains("a=sendonly\r\n"));
}

#[test]
fn missing_mid_fails_negotiation() {
    let session = test_session();
    let offer = RTCSessionDescription::offer(String::from(
        "v=0\r\n\
         o=- 4 2 IN IP4 127.0.0.1\r\n\
         s=-\r\n\
         t=0 0\r\n\
         a=ice-ufrag:remoteUfrag\r\n\
         a=ice-pwd:remotePwdremotePwd\r\n\
         m=video 9 UDP/TLS/RTP/SAVPF 96\r\n\
         a=sendrecv\r\n",
    ));
    let parsed = offer.unmarshal().expect("offer parses");
    let r = session.create_pending_answer(&parsed, &fixed_local_credentials());
    assert!(matches!(r, Err(Error::RemoteDescriptionWithoutMidValue)));
}

#[test]
fn unmatched_mid_fails_negotiation() {
    let session = test_session();
    let offer = RTCSessionDescription::offer(audio_and_data_offer());
    let parsed = offer.unmarshal().expect("offer parses");
    let r = session.create_pending_answer(&parsed, &fixed_local_credentials());
    assert!(matches!(r, Err(Error::TransceiverMidNil)));
}

#[test]
fn unrecognized_media_lines_are_skipped() {
    let session = test_session();
    let offer = RTCSessionDescription::offer(String::from(
        "v=0\r\n\
         o=- 4 2 IN IP4 127.0.0.1\r\n\
         s=-\r\n\
         t=0 0\r\n\
         a=ice-ufrag:remoteUfrag\r\n\
         a=ice-pwd:remotePwdremotePwd\r\n\
         m=text 9 UDP/TLS/RTP/SAVPF 96\r\n\
         a=mid:9\r\n\
         a=sendrecv\r\n\
         m=application 9 UDP/DTLS/SCTP webrtc-datachannel\r\n\
         a=mid:1\r\n",
    ));
    let parsed = offer.unmarshal().expect("offer parses");
    let answer = session
        .create_pending_answer(&parsed, &fixed_local_credentials())
        .expect("answer");
    assert!(!answer.sdp.contains("a=mid:9\r\n"));
    assert!(answer.sdp.contains("a=mid:1\r\n"));
    assert!(answer.sdp.contains("a=group:BUNDLE 1\r\n"));
}

#[test]
fn session_level_offer_acceptance_builds_a_candidate() {
    let mut session = test_session();
    session.add_transceiver(audio_transceiver("0"));
    let offer = RTCSessionDescription::offer(audio_and_data_offer());
    let (answer, candidate) = session
        .accept_pending_offer(42, offer, 123456)
        .expect("acceptance");
    assert_eq!(candidate.session_id, 7);
    assert_eq!(candidate.endpoint_id, 42);
    assert_eq!(candidate.expired_millis, 123456);
    assert_eq!(candidate.username().len(), 16);
    assert_eq!(candidate.username(), candidate.local_connection_credentials().ice_ufrag);
    assert_eq!(candidate.remote_connection_credentials().ice_ufrag, "remoteUfrag");
    assert_eq!(candidate.local_description().sdp, answer.sdp);
    assert_eq!(candidate.remote_description().sdp, audio_and_data_offer());
    assert!(candidate.remote_description().parsed.is_some());
}

#[test]
fn fresh_offer_appends_unmatched_transceivers_and_a_data_section() {
    let mut session = test_session();
    session.add_transceiver(audio_transceiver("0"));
    session.add_transceiver(audio_transceiver("5"));
    let offer = RTCSessionDescription::offer(String::from(
        "v=0\r\n\
         o=- 4 2 IN IP4 127.0.0.1\r\n\
         s=-\r\n\
         t=0 0\r\n\
         a=ice-ufrag:remoteUfrag\r\n\
         a=ice-pwd:remotePwdremotePwd\r\n\
         m=audio 9 UDP/TLS/RTP/SAVPF 111\r\n\
         a=mid:0\r\n\
         a=sendrecv\r\n",
    ));
    let parsed = offer.unmarshal().expect("offer parses");
    let transceivers = vec![audio_transceiver("0"), audio_transceiver("5")];
    let text = session
        .generate_matched_sdp(&parsed, &fixed_local_credentials(), transceivers, true)
        .expect("fresh offer");
    assert!(text.contains("a=group:BUNDLE 0 5 2\r\n"));
    let matched_at = text.find("a=mid:0\r\n").expect("matched section");
    let unmatched_at = text.find("a=mid:5\r\n").expect("unmatched section");
    let data_at = text.find("a=mid:2\r\n").expect("appended data section");
    assert!(matched_at < unmatched_at && unmatched_at < data_at);
    assert!(text.contains("m=application 9 UDP/DTLS/SCTP webrtc-datachannel\r\n"));
}

#[test]
fn fingerprint_without_a_space_keeps_the_whole_value_as_algorithm() {
    let offer = RTCSessionDescription::offer(String::from(
        "v=0\r\n\
         o=- 4 2 IN IP4 127.0.0.1\r\n\
         s=-\r\n\
         t=0 0\r\n\
         a=ice-ufrag:remoteUfrag\r\n\
         a=ice-pwd:remotePwdremotePwd\r\n\
         a=fingerprint:sha-256\r\n\
         m=application 9 UDP/DTLS/SCTP webrtc-datachannel\r\n\
         a=mid:0\r\n",
    ));
    let parsed = offer.unmarshal().expect("offer parses");
    let creds = ConnectionCredentials::from_sdp(&parsed).expect("credentials");
    assert_eq!(creds.fingerprints[0].algorithm, "sha-256");
    assert_eq!(creds.fingerprints[0].value, "");
}
