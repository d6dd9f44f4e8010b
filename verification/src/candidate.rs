use vstd::prelude::*;

use crate::credentials::{ConnectionCredentials, ConnectionCredentialsView};
use crate::description::{RTCSessionDescription, RTCSessionDescriptionView};

verus! {

/// One negotiated endpoint connection: the pairing of remote and local
/// credentials for a (session, endpoint) pair, the stored offer and
/// answer, and the instant the entry goes idle.
///
/// The local ICE username fragment is the key inbound packets are
/// demultiplexed by; credentials are immutable once the candidate is
/// built.
pub struct Candidate {
    pub session_id: u64,
    pub endpoint_id: u64,
    pub remote_conn_cred: ConnectionCredentials,
    pub local_conn_cred: ConnectionCredentials,
    pub remote_description: RTCSessionDescription,
    pub local_description: RTCSessionDescription,
    /// Milliseconds since the clock's epoch after which this candidate
    /// counts as idle. Stored only: nothing evicts expired entries yet.
    pub expired_millis: u64,
}

/// The mathematical value of a [`Candidate`].
#[verifier::ext_equal]
pub struct CandidateView {
    pub session_id: u64,
    pub endpoint_id: u64,
    pub remote_conn_cred: ConnectionCredentialsView,
    pub local_conn_cred: ConnectionCredentialsView,
    pub remote_description: RTCSessionDescriptionView,
    pub local_description: RTCSessionDescriptionView,
    pub expired_millis: u64,
}

impl View for Candidate {
    type V = CandidateView;

    open spec fn view(&self) -> CandidateView {
        CandidateView {
            session_id: self.session_id,
            endpoint_id: self.endpoint_id,
            remote_conn_cred: self.remote_conn_cred@,
            local_conn_cred: self.local_conn_cred@,
            remote_description: self.remote_description@,
            local_description: self.local_description@,
            expired_millis: self.expired_millis,
        }
    }
}

impl Candidate {
    /// Binds a negotiated connection together; never built partially: a
    /// malformed offer fails before any of these values exist.
    pub fn new(
        session_id: u64,
        endpoint_id: u64,
        remote_conn_cred: ConnectionCredentials,
        local_conn_cred: ConnectionCredentials,
        remote_description: RTCSessionDescription,
        local_description: RTCSessionDescription,
        expired_millis: u64,
    ) -> (r: Candidate)
        ensures
            r@.session_id == session_id,
            r@.endpoint_id == endpoint_id,
            r@.remote_conn_cred == remote_conn_cred@,
            r@.local_conn_cred == local_conn_cred@,
            r@.remote_description == remote_description@,
            r@.local_description == local_description@,
            r@.expired_millis == expired_millis,
    {
        Candidate {
            session_id,
            endpoint_id,
            remote_conn_cred,
            local_conn_cred,
            remote_description,
            local_description,
            expired_millis,
        }
    }

    /// The demultiplexing key: the local ICE username fragment.
    pub fn username(&self) -> (r: String)
        ensures
            r@ == self@.local_conn_cred.ice_ufrag,
    {
        self.local_conn_cred.username()
    }

    /// The stored offer.
    pub fn remote_description(&self) -> (r: &RTCSessionDescription)
        ensures
            r@ == self@.remote_description,
    {
        &self.remote_description
    }

    /// The stored answer.
    pub fn local_description(&self) -> (r: &RTCSessionDescription)
        ensures
            r@ == self@.local_description,
    {
        &self.local_description
    }

    /// The local side's negotiated credentials.
    pub fn local_connection_credentials(&self) -> (r: &ConnectionCredentials)
        ensures
            r@ == self@.local_conn_cred,
    {
        &self.local_conn_cred
    }

    /// The remote side's announced credentials.
    pub fn remote_connection_credentials(&self) -> (r: &ConnectionCredentials)
        ensures
            r@ == self@.remote_conn_cred,
    {
        &self.remote_conn_cred
    }
}

} // verus!
