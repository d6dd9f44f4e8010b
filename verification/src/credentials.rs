use vstd::prelude::*;

use crate::description::{
    find_attr, token_prefix, token_rest, AttrView, ParsedSdp, ParsedSdpView, split_first_token,
    find_attribute,
};
use crate::error::Error;

verus! {

/// The DTLS role one side takes: `Client` starts the handshake, `Server`
/// awaits it, `Auto` leaves the choice open (`setup:actpass`).
#[derive(Clone, Copy, Debug, PartialEq, Eq, Structural)]
pub enum DtlsRole {
    Auto,
    Client,
    Server,
}

/// The role the local side takes against a remote announcement: the
/// complement of the remote role, and the server role where the remote
/// leaves the choice open.
pub open spec fn dtls_complement(remote: DtlsRole) -> DtlsRole {
    match remote {
        DtlsRole::Client => DtlsRole::Server,
        DtlsRole::Server => DtlsRole::Client,
        DtlsRole::Auto => DtlsRole::Server,
    }
}

/// One certificate fingerprint: the hash algorithm's name and the digest
/// text as it stands in a `fingerprint` attribute.
pub struct Fingerprint {
    pub algorithm: String,
    pub value: String,
}

/// The mathematical value of a [`Fingerprint`].
#[verifier::ext_equal]
pub struct FingerprintView {
    pub algorithm: Seq<char>,
    pub value: Seq<char>,
}

impl View for Fingerprint {
    type V = FingerprintView;

    open spec fn view(&self) -> FingerprintView {
        FingerprintView { algorithm: self.algorithm@, value: self.value@ }
    }
}

impl Fingerprint {
    pub fn new(algorithm: String, value: String) -> (r: Fingerprint)
        ensures
            r@.algorithm == algorithm@,
            r@.value == value@,
    {
        Fingerprint { algorithm, value }
    }

    pub fn clone(&self) -> (r: Fingerprint)
        ensures
            r@ == self@,
    {
        Fingerprint { algorithm: self.algorithm.clone(), value: self.value.clone() }
    }
}

/// A local certificate, as negotiation sees it: the stable fingerprint set
/// it exposes for `fingerprint` attributes.
pub struct Certificate {
    pub fingerprints: Vec<Fingerprint>,
}

/// The mathematical value of a [`Certificate`].
#[verifier::ext_equal]
pub struct CertificateView {
    pub fingerprints: Seq<FingerprintView>,
}

impl View for Certificate {
    type V = CertificateView;

    open spec fn view(&self) -> CertificateView {
        CertificateView {
            fingerprints: self.fingerprints@.map_values(|f: Fingerprint| f@),
        }
    }
}

impl Certificate {
    pub fn new(fingerprints: Vec<Fingerprint>) -> (r: Certificate)
        ensures
            r@.fingerprints == fingerprints@.map_values(|f: Fingerprint| f@),
    {
        Certificate { fingerprints }
    }
}

/// Copies a fingerprint list.
pub fn clone_fingerprints(v: &Vec<Fingerprint>) -> (r: Vec<Fingerprint>)
    ensures
        r@.map_values(|f: Fingerprint| f@) == v@.map_values(|f: Fingerprint| f@),
{
    let mut r: Vec<Fingerprint> = Vec::new();
    let mut i: usize = 0;
    while i < v.len()
        invariant
            0 <= i <= v.len(),
            r@.len() == i,
            forall|j: int| 0 <= j < i ==> r@[j]@ == v@[j]@,
        decreases v.len() - i,
    {
        r.push(v[i].clone());
        i += 1;
    }
    proof {
        assert(r@.map_values(|f: Fingerprint| f@) =~= v@.map_values(|f: Fingerprint| f@));
    }
    r
}

/// The value of the given attribute as credential derivation reads it:
/// the first media description's attributes take precedence, the session
/// level is the fallback.
pub open spec fn credential_attr(p: ParsedSdpView, key: Seq<char>) -> Option<Seq<char>> {
    let media_level = if p.media.len() > 0 {
        match find_attr(p.media[0].attrs, key) {
            Some(a) => a.value,
            None => None,
        }
    } else {
        None
    };
    match media_level {
        Some(v) => Some(v),
        None => match find_attr(p.session_attrs, key) {
            Some(a) => a.value,
            None => None,
        },
    }
}

/// The ICE username fragment an offer announces.
pub open spec fn ice_ufrag_of(p: ParsedSdpView) -> Option<Seq<char>> {
    credential_attr(p, "ice-ufrag"@)
}

/// The ICE password an offer announces.
pub open spec fn ice_pwd_of(p: ParsedSdpView) -> Option<Seq<char>> {
    credential_attr(p, "ice-pwd"@)
}

/// The raw `fingerprint` attribute value an offer announces, if any.
pub open spec fn fingerprint_raw_of(p: ParsedSdpView) -> Option<Seq<char>> {
    credential_attr(p, "fingerprint"@)
}

/// The DTLS role an offer's `setup` attribute announces.
pub open spec fn setup_role_of(p: ParsedSdpView) -> DtlsRole {
    match credential_attr(p, "setup"@) {
        Some(v) => if v == "active"@ {
            DtlsRole::Client
        } else if v == "passive"@ {
            DtlsRole::Server
        } else {
            DtlsRole::Auto
        },
        None => DtlsRole::Auto,
    }
}

/// The fingerprint list an offer announces: the attribute value split at
/// its first space into algorithm and digest; empty where the attribute
/// is absent.
pub open spec fn remote_fingerprints_of(p: ParsedSdpView) -> Seq<FingerprintView> {
    match fingerprint_raw_of(p) {
        Some(v) => seq![
            FingerprintView { algorithm: token_prefix(v), value: token_rest(v) },
        ],
        None => Seq::empty(),
    }
}

/// One side's ICE and DTLS identity: the ICE credentials it authenticates
/// with, the DTLS role it takes, and the certificate fingerprints it is
/// expected to present.
pub struct ConnectionCredentials {
    pub ice_ufrag: String,
    pub ice_pwd: String,
    pub dtls_role: DtlsRole,
    pub fingerprints: Vec<Fingerprint>,
}

/// The mathematical value of a [`ConnectionCredentials`].
#[verifier::ext_equal]
pub struct ConnectionCredentialsView {
    pub ice_ufrag: Seq<char>,
    pub ice_pwd: Seq<char>,
    pub dtls_role: DtlsRole,
    pub fingerprints: Seq<FingerprintView>,
}

impl View for ConnectionCredentials {
    type V = ConnectionCredentialsView;

    open spec fn view(&self) -> ConnectionCredentialsView {
        ConnectionCredentialsView {
            ice_ufrag: self.ice_ufrag@,
            ice_pwd: self.ice_pwd@,
            dtls_role: self.dtls_role,
            fingerprints: self.fingerprints@.map_values(|f: Fingerprint| f@),
        }
    }
}

/// Relies on rand's `Alphanumeric` sampled through `sample_string`: the
/// result is a string of exactly `len` random alphanumeric characters.
#[verifier::external_body]
fn random_alphanumeric(len: usize) -> (r: String)
    ensures
        r@.len() == len as nat,
{
    rand::distr::SampleString::sample_string(&rand::distr::Alphanumeric, &mut rand::rng(), len)
}

/// Reads the given credential attribute of a parsed offer, media level
/// first, session level as fallback.
fn get_credential_attr(p: &ParsedSdp, key: &String) -> (r: Option<String>)
    ensures
        match r {
            Some(v) => credential_attr(p@, key@) == Some(v@),
            None => credential_attr(p@, key@) is None,
        },
{
    if p.media.len() > 0 {
        match find_attribute(&p.media[0].attrs, key) {
            Some(a) => match &a.value {
                Some(v) => {
                    return Some(v.clone());
                },
                None => {},
            },
            None => {},
        }
    }
    match find_attribute(&p.session_attrs, key) {
        Some(a) => match &a.value {
            Some(v) => Some(v.clone()),
            None => None,
        },
        None => None,
    }
}

impl ConnectionCredentials {
    /// Derives the remote side's credentials from a parsed offer.
    ///
    /// Fails exactly where the offer announces no ICE username fragment or
    /// no ICE password; the DTLS role and fingerprint expectations are
    /// optional hints.
    pub fn from_sdp(p: &ParsedSdp) -> (r: Result<ConnectionCredentials, Error>)
        ensures
            match (ice_ufrag_of(p@), ice_pwd_of(p@)) {
                (Some(u), Some(w)) => r matches Ok(c) && c@.ice_ufrag == u && c@.ice_pwd == w
                    && c@.dtls_role == setup_role_of(p@) && c@.fingerprints
                    == remote_fingerprints_of(p@),
                _ => r matches Err(e) && e == Error::MissingIceCredentials,
            },
    {
        let ufrag = match get_credential_attr(p, &String::from_str("ice-ufrag")) {
            Some(u) => u,
            None => {
                return Err(Error::MissingIceCredentials);
            },
        };
        let pwd = match get_credential_attr(p, &String::from_str("ice-pwd")) {
            Some(w) => w,
            None => {
                return Err(Error::MissingIceCredentials);
            },
        };
        let role = match get_credential_attr(p, &String::from_str("setup")) {
            Some(v) => {
                if v == String::from_str("active") {
                    DtlsRole::Client
                } else if v == String::from_str("passive") {
                    DtlsRole::Server
                } else {
                    DtlsRole::Auto
                }
            },
            None => DtlsRole::Auto,
        };
        let mut fingerprints: Vec<Fingerprint> = Vec::new();
        match get_credential_attr(p, &String::from_str("fingerprint")) {
            Some(v) => {
                let (algorithm, value) = split_first_token(&v);
                fingerprints.push(Fingerprint { algorithm, value });
            },
            None => {},
        }
        let c = ConnectionCredentials { ice_ufrag: ufrag, ice_pwd: pwd, dtls_role: role, fingerprints };
        proof {
            assert(c@.fingerprints =~= remote_fingerprints_of(p@));
        }
        Ok(c)
    }

    /// Builds the local side's credentials: a fresh random ICE username
    /// fragment and password, the complement of the remote's announced
    /// DTLS role, and the local certificate's fingerprints.
    pub fn new(certificate: &Certificate, remote_role: DtlsRole) -> (r: ConnectionCredentials)
        ensures
            r@.ice_ufrag.len() == 16,
            r@.ice_pwd.len() == 32,
            r@.dtls_role == dtls_complement(remote_role),
            r@.fingerprints == certificate@.fingerprints,
    {
        let ice_ufrag = random_alphanumeric(16);
        let ice_pwd = random_alphanumeric(32);
        let dtls_role = match remote_role {
            DtlsRole::Client => DtlsRole::Server,
            DtlsRole::Server => DtlsRole::Client,
            DtlsRole::Auto => DtlsRole::Server,
        };
        let fingerprints = clone_fingerprints(&certificate.fingerprints);
        ConnectionCredentials { ice_ufrag, ice_pwd, dtls_role, fingerprints }
    }

    /// The local ICE username fragment, the key packets are demultiplexed
    /// by.
    pub fn username(&self) -> (r: String)
        ensures
            r@ == self@.ice_ufrag,
    {
        self.ice_ufrag.clone()
    }
}

} // verus!
