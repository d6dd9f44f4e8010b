use vstd::prelude::*;

use vstd::hash_map::{HashMapWithView, StringHashMap};

use crate::candidate::Candidate;
use crate::credentials::{Certificate, ConnectionCredentials};
use crate::description::{sdp_parse_spec, RTCSessionDescription, SdpType};
use crate::error::Error;
use crate::session::Session;
use crate::transport::SocketAddress;

verus! {

broadcast use vstd::std_specs::hash::group_hash_axioms;

/// The SRTP context an established endpoint encrypts or decrypts with.
/// This core only stores such contexts, keyed by remote address; the
/// forwarding loop installs one after a successful DTLS key export and
/// looks it up on every later datagram from that address.
#[verifier::external_type_specification]
#[verifier::external_body]
pub struct ExSrtpContext(webrtc_srtp::context::Context);

/// The immutable process configuration negotiation needs: the local
/// certificates and the idle timeout granted to each new candidate.
pub struct ServerConfig {
    pub certificates: Vec<Certificate>,
    pub candidate_idle_timeout_millis: u64,
}

impl ServerConfig {
    /// A configuration with the default idle timeout of thirty seconds.
    pub fn new(certificates: Vec<Certificate>) -> (r: ServerConfig)
        ensures
            r.certificates == certificates,
            r.candidate_idle_timeout_millis == 30000u64,
    {
        ServerConfig { certificates, candidate_idle_timeout_millis: 30000 }
    }

    /// The same configuration with another idle timeout.
    pub fn with_idle_timeout_millis(self, timeout_millis: u64) -> (r: ServerConfig)
        ensures
            r.certificates == self.certificates,
            r.candidate_idle_timeout_millis == timeout_millis,
    {
        ServerConfig { certificates: self.certificates, candidate_idle_timeout_millis: timeout_millis }
    }
}

/// Whether a configuration can serve negotiation: it has a certificate
/// and that certificate exposes a fingerprint.
pub open spec fn config_valid(c: &ServerConfig) -> bool {
    c.certificates@.len() > 0 && c.certificates@[0]@.fingerprints.len() > 0
}

/// Relies on std's `SystemTime::now` and `duration_since`: the current
/// time as milliseconds since the Unix epoch, zero where the clock
/// stands before it. Nothing further can be promised of a clock.
#[verifier::external_body]
fn now_millis() -> u64 {
    std::time::SystemTime::now().duration_since(std::time::UNIX_EPOCH).map(
        |d| d.as_millis() as u64,
    ).unwrap_or(0)
}

/// The process-wide negotiation authority: the session registry, the
/// global username-keyed candidate index used to demultiplex inbound
/// packets, and the address-keyed security-context tables the
/// forwarding loop fills and reads.
///
/// One thread owns a value of this type exclusively; all other threads
/// reach it only through the signaling protocol's request and reply
/// channels.
pub struct ServerStates {
    pub config: ServerConfig,
    pub local_addr: SocketAddress,
    pub sessions: HashMapWithView<u64, Session>,
    pub candidates: StringHashMap<Candidate>,
    pub local_srtp_contexts: StringHashMap<webrtc_srtp::context::Context>,
    pub remote_srtp_contexts: StringHashMap<webrtc_srtp::context::Context>,
}

impl ServerStates {
    /// The registry is well formed: the configuration stays valid and
    /// every registered session is usable, keyed by its own id, and
    /// carries this registry's address and certificate.
    pub open spec fn wf(&self) -> bool {
        &&& config_valid(&self.config)
        &&& forall|k: u64| #[trigger]
            self.sessions@.dom().contains(k) ==> self.sessions@[k].wf()
                && self.sessions@[k].session_id == k && self.sessions@[k].local_addr@
                == self.local_addr@ && self.sessions@[k].certificate@
                == self.config.certificates@[0]@
    }

    /// Builds the registry; fails exactly where the configuration has no
    /// usable certificate.
    pub fn new(config: ServerConfig, local_addr: SocketAddress) -> (r: Result<
        ServerStates,
        Error,
    >)
        ensures
            match r {
                Ok(s) => config_valid(&config) && s.wf() && s.config == config && s.local_addr@
                    == local_addr@ && s.sessions@ == Map::<u64, Session>::empty() && s.candidates@
                    == Map::<Seq<char>, Candidate>::empty(),
                Err(e) => !config_valid(&config) && e == Error::InvalidCertificate,
            },
    {
        if config.certificates.len() == 0 {
            return Err(Error::InvalidCertificate);
        }
        if config.certificates[0].fingerprints.len() == 0 {
            return Err(Error::InvalidCertificate);
        }
        Ok(
            ServerStates {
                config,
                local_addr,
                sessions: HashMapWithView::new(),
                candidates: StringHashMap::new(),
                local_srtp_contexts: StringHashMap::new(),
                remote_srtp_contexts: StringHashMap::new(),
            },
        )
    }

    /// This side's media address.
    pub fn local_addr(&self) -> (r: SocketAddress)
        ensures
            r@ == self.local_addr@,
    {
        self.local_addr.clone()
    }

    /// Ensures the session for the given id exists, creating it on first
    /// use and reusing it thereafter; nothing else changes.
    pub fn create_or_get_session(&mut self, session_id: u64)
        requires
            old(self).wf(),
        ensures
            final(self).wf(),
            final(self).config == old(self).config,
            final(self).local_addr == old(self).local_addr,
            final(self).candidates@ == old(self).candidates@,
            final(self).local_srtp_contexts@ == old(self).local_srtp_contexts@,
            final(self).remote_srtp_contexts@ == old(self).remote_srtp_contexts@,
            final(self).sessions@.dom() == old(self).sessions@.dom().insert(session_id),
            old(self).sessions@.dom().contains(session_id) ==> final(self).sessions@ == old(self).sessions@,
            !old(self).sessions@.dom().contains(session_id) ==> final(self).sessions@[session_id]
                .transceivers@.len() == 0,
            forall|k: u64| #[trigger]
                old(self).sessions@.dom().contains(k) && k != session_id ==> final(self).sessions@[k] == old(self).sessions@[k],
    {
        if self.sessions.contains_key(&session_id) {
            proof {
                assert(old(self).sessions@.dom().insert(session_id) =~= old(self).sessions@.dom());
            }
            return ;
        }
        let certificate = Certificate {
            fingerprints: crate::credentials::clone_fingerprints(
                &self.config.certificates[0].fingerprints,
            ),
        };
        let session = Session::new(session_id, self.local_addr.clone(), certificate);
        self.sessions.insert(session_id, session);
        proof {
            assert(self.sessions@.dom() =~= old(self).sessions@.dom().insert(session_id));
        }
    }

    /// How many candidates the global username index holds.
    pub fn candidate_count(&self) -> (r: usize)
        ensures
            r == self.candidates@.len(),
    {
        self.candidates.len()
    }

    /// How many sessions the registry holds.
    pub fn session_count(&self) -> (r: usize)
        ensures
            r == self.sessions@.len(),
    {
        self.sessions.len()
    }

    /// Looks a session up by id.
    pub fn get_session(&self, session_id: &u64) -> (r: Option<&Session>)
        ensures
            match r {
                Some(s) => self.sessions@.contains_key(*session_id) && *s
                    == self.sessions@[*session_id],
                None => !self.sessions@.contains_key(*session_id),
            },
    {
        self.sessions.get(session_id)
    }

    /// Registers a candidate under its username; a colliding username
    /// replaces the stored entry rather than duplicating it. Returns
    /// whether an entry was replaced.
    pub fn add_candidate(&mut self, candidate: Candidate) -> (replaced: bool)
        ensures
            final(self).candidates@ == old(self).candidates@.insert(
                candidate@.local_conn_cred.ice_ufrag,
                candidate,
            ),
            replaced == old(self).candidates@.contains_key(candidate@.local_conn_cred.ice_ufrag),
            final(self).config == old(self).config,
            final(self).local_addr == old(self).local_addr,
            final(self).sessions@ == old(self).sessions@,
            final(self).local_srtp_contexts@ == old(self).local_srtp_contexts@,
            final(self).remote_srtp_contexts@ == old(self).remote_srtp_contexts@,
    {
        let username = candidate.username();
        let replaced = self.candidates.contains_key(username.as_str());
        self.candidates.insert(username, candidate);
        replaced
    }

    /// Removes the candidate stored under a username, if any; returns
    /// whether one was there.
    pub fn remove_candidate(&mut self, username: &String) -> (removed: bool)
        ensures
            final(self).candidates@ == old(self).candidates@.remove(username@),
            removed == old(self).candidates@.contains_key(username@),
            final(self).config == old(self).config,
            final(self).local_addr == old(self).local_addr,
            final(self).sessions@ == old(self).sessions@,
            final(self).local_srtp_contexts@ == old(self).local_srtp_contexts@,
            final(self).remote_srtp_contexts@ == old(self).remote_srtp_contexts@,
    {
        let removed = self.candidates.contains_key(username.as_str());
        self.candidates.remove(username.as_str());
        removed
    }

    /// Looks a candidate up by username, as packet demultiplexing does.
    pub fn find_candidate(&self, username: &String) -> (r: Option<&Candidate>)
        ensures
            match r {
                Some(c) => self.candidates@.contains_key(username@) && *c
                    == self.candidates@[username@],
                None => !self.candidates@.contains_key(username@),
            },
    {
        self.candidates.get(username.as_str())
    }

    /// Stores the SRTP context that decrypts traffic arriving from the
    /// given address key.
    pub fn add_local_srtp_context(
        &mut self,
        key: String,
        context: webrtc_srtp::context::Context,
    )
        ensures
            final(self).local_srtp_contexts@ == old(self).local_srtp_contexts@.insert(
                key@,
                context,
            ),
            final(self).config == old(self).config,
            final(self).local_addr == old(self).local_addr,
            final(self).sessions@ == old(self).sessions@,
            final(self).candidates@ == old(self).candidates@,
            final(self).remote_srtp_contexts@ == old(self).remote_srtp_contexts@,
    {
        self.local_srtp_contexts.insert(key, context);
    }

    /// Looks up the SRTP context for traffic arriving from an address.
    pub fn find_local_srtp_context(&self, key: &String) -> (r: Option<
        &webrtc_srtp::context::Context,
    >)
        ensures
            match r {
                Some(c) => self.local_srtp_contexts@.contains_key(key@) && *c
                    == self.local_srtp_contexts@[key@],
                None => !self.local_srtp_contexts@.contains_key(key@),
            },
    {
        self.local_srtp_contexts.get(key.as_str())
    }

    /// Stores the SRTP context that encrypts traffic sent towards the
    /// given address key.
    pub fn add_remote_srtp_context(
        &mut self,
        key: String,
        context: webrtc_srtp::context::Context,
    )
        ensures
            final(self).remote_srtp_contexts@ == old(self).remote_srtp_contexts@.insert(
                key@,
                context,
            ),
            final(self).config == old(self).config,
            final(self).local_addr == old(self).local_addr,
            final(self).sessions@ == old(self).sessions@,
            final(self).candidates@ == old(self).candidates@,
            final(self).local_srtp_contexts@ == old(self).local_srtp_contexts@,
    {
        self.remote_srtp_contexts.insert(key, context);
    }

    /// Looks up the SRTP context for traffic sent towards an address.
    pub fn find_remote_srtp_context(&self, key: &String) -> (r: Option<
        &webrtc_srtp::context::Context,
    >)
        ensures
            match r {
                Some(c) => self.remote_srtp_contexts@.contains_key(key@) && *c
                    == self.remote_srtp_contexts@[key@],
                None => !self.remote_srtp_contexts@.contains_key(key@),
            },
    {
        self.remote_srtp_contexts.get(key.as_str())
    }

    /// Accepts an offer: parses it, derives both sides' credentials,
    /// answers through the session for the given id — created on first
    /// use — and registers the resulting candidate under its fresh
    /// username. The answer is returned; every failure leaves the
    /// candidate table untouched and is reported, never retried.
    pub fn accept_offer(
        &mut self,
        session_id: u64,
        endpoint_id: u64,
        offer: RTCSessionDescription,
    ) -> (r: Result<RTCSessionDescription, Error>)
        requires
            old(self).wf(),
        ensures
            final(self).wf(),
            final(self).config == old(self).config,
            final(self).local_addr == old(self).local_addr,
            final(self).local_srtp_contexts@ == old(self).local_srtp_contexts@,
            final(self).remote_srtp_contexts@ == old(self).remote_srtp_contexts@,
            accepted_offer(old(self), final(self), session_id, endpoint_id, offer@.sdp, r),
    {
        let parsed = match offer.unmarshal() {
            Ok(p) => p,
            Err(e) => {
                return Err(e);
            },
        };
        let remote_conn_cred = match ConnectionCredentials::from_sdp(&parsed) {
            Ok(c) => c,
            Err(e) => {
                return Err(e);
            },
        };
        let local_conn_cred = ConnectionCredentials::new(
            &self.config.certificates[0],
            remote_conn_cred.dtls_role,
        );
        self.create_or_get_session(session_id);
        let session = match self.get_session(&session_id) {
            Some(s) => s,
            None => {
                return Err(Error::InvalidCertificate);
            },
        };
        let answer = match session.create_pending_answer(&parsed, &local_conn_cred) {
            Ok(a) => a,
            Err(e) => {
                return Err(e);
            },
        };
        let answer_copy = RTCSessionDescription {
            sdp_type: SdpType::Answer,
            sdp: answer.sdp.clone(),
            parsed: None,
        };
        let offer_stored = RTCSessionDescription {
            sdp_type: offer.sdp_type,
            sdp: offer.sdp,
            parsed: Some(parsed),
        };
        let now = now_millis();
        let timeout = self.config.candidate_idle_timeout_millis;
        let expired_millis = if now <= u64::MAX - timeout {
            now + timeout
        } else {
            u64::MAX
        };
        let ghost ufrag = local_conn_cred@.ice_ufrag;
        let candidate = Candidate::new(
            session_id,
            endpoint_id,
            remote_conn_cred,
            local_conn_cred,
            offer_stored,
            answer,
            expired_millis,
        );
        self.add_candidate(candidate);
        proof {
            assert(candidate_registered(
                old(self),
                self,
                session_id,
                endpoint_id,
                offer@.sdp,
                answer_copy@,
                ufrag,
            ));
        }
        Ok(answer_copy)
    }
}

/// The candidate entry an accepted offer leaves behind, under the fresh
/// local username `u`: exactly one entry added or replaced, carrying the
/// ids, the remote credentials the offer announced, the parsed offer and
/// the answer whose text the caller received.
pub open spec fn candidate_registered(
    pre: &ServerStates,
    post: &ServerStates,
    session_id: u64,
    endpoint_id: u64,
    offer_sdp: Seq<char>,
    answer: crate::description::RTCSessionDescriptionView,
    u: Seq<char>,
) -> bool {
    let p = sdp_parse_spec(offer_sdp)->Some_0;
    let c = post.candidates@[u];
    &&& u.len() == 16
    &&& post.candidates@.contains_key(u)
    &&& post.candidates@ == pre.candidates@.insert(u, c)
    &&& c@.session_id == session_id
    &&& c@.endpoint_id == endpoint_id
    &&& c@.local_conn_cred.ice_ufrag == u
    &&& c@.local_conn_cred.ice_pwd.len() == 32
    &&& c@.local_conn_cred.dtls_role == crate::credentials::dtls_complement(
        crate::credentials::setup_role_of(p),
    )
    &&& c@.remote_conn_cred.ice_ufrag == crate::credentials::ice_ufrag_of(p)->Some_0
    &&& c@.remote_conn_cred.ice_pwd == crate::credentials::ice_pwd_of(p)->Some_0
    &&& c@.remote_conn_cred.dtls_role == crate::credentials::setup_role_of(p)
    &&& c@.remote_description.sdp == offer_sdp
    &&& c@.remote_description.parsed == Some(p)
    &&& c@.local_description.sdp == answer.sdp
    &&& c@.local_description.sdp_type == SdpType::Answer
}

/// What accepting an offer does to the registry: on a parse or
/// credential failure, nothing; once the offer parses and carries ICE
/// credentials, the session for the id exists afterwards — created
/// fresh and empty on first use, reused unchanged otherwise — and the
/// outcome follows the session's matching: an error leaves the
/// candidate table untouched, an answer registers exactly one candidate
/// under its fresh username and returns the text the session serialized
/// for the matched sections.
pub open spec fn accepted_offer(
    pre: &ServerStates,
    post: &ServerStates,
    session_id: u64,
    endpoint_id: u64,
    offer_sdp: Seq<char>,
    r: Result<RTCSessionDescription, Error>,
) -> bool {
    match sdp_parse_spec(offer_sdp) {
        None => r matches Err(e) && e == Error::SdpParse && post.sessions@ == pre.sessions@
            && post.candidates@ == pre.candidates@,
        Some(p) => match (
            crate::credentials::ice_ufrag_of(p),
            crate::credentials::ice_pwd_of(p),
        ) {
            (Some(_), Some(_)) => {
                &&& post.sessions@.dom() == pre.sessions@.dom().insert(session_id)
                &&& pre.sessions@.dom().contains(session_id) ==> post.sessions@ == pre.sessions@
                &&& !pre.sessions@.dom().contains(session_id) ==> post.sessions@[session_id]
                    .transceivers@.len() == 0
                &&& forall|k: u64| #[trigger]
                    pre.sessions@.dom().contains(k) && k != session_id ==> post.sessions@[k]
                        == pre.sessions@[k]
                &&& match crate::session::matched_sections(
                    p.media,
                    post.sessions@[session_id].transceivers_view(),
                    false,
                ) {
                    Ok(secs) => r matches Ok(answer) && {
                        &&& answer@.sdp_type == SdpType::Answer
                        &&& answer@.parsed is None
                        &&& exists|u: Seq<char>|
                            #[trigger] candidate_registered(
                                pre,
                                post,
                                session_id,
                                endpoint_id,
                                offer_sdp,
                                answer@,
                                u,
                            ) && answer@.sdp == post.sessions@[session_id].answer_text_for(
                                secs,
                                u,
                                post.candidates@[u]@.local_conn_cred.ice_pwd,
                                post.candidates@[u]@.local_conn_cred.dtls_role,
                            )
                    },
                    Err(e) => r matches Err(e2) && e2 == e && post.candidates@ == pre.candidates@,
                }
            },
            _ => r matches Err(e) && e == Error::MissingIceCredentials && post.sessions@
                == pre.sessions@ && post.candidates@ == pre.candidates@,
        },
    }
}

} // verus!
