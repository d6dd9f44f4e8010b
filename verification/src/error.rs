use vstd::prelude::*;

verus! {

/// The negotiation errors this library can report.
///
/// Every failure of the offer/answer core is one of these values; none of
/// them is ever swallowed: each propagates to the signaling boundary, where
/// it becomes the reason of an error reply.
#[derive(Clone, Copy, Debug, PartialEq, Eq, Structural)]
pub enum Error {
    /// The offer text could not be parsed as a session description.
    SdpParse,
    /// The parsed offer carries no usable ICE credentials
    /// (`ice-ufrag` / `ice-pwd`) at the media or session level.
    MissingIceCredentials,
    /// A non-application media description of the offer has no `mid`
    /// attribute, or an empty one; such an offer cannot be answered.
    RemoteDescriptionWithoutMidValue,
    /// The offer names a `mid` for which no local transceiver exists;
    /// such an offer cannot be answered.
    TransceiverMidNil,
    /// The configured certificate set is empty or carries no fingerprint;
    /// negotiation cannot proceed without one.
    InvalidCertificate,
}

impl Error {
    /// A short, human-readable reason, suitable for an error reply.
    pub fn message(&self) -> (r: &'static str)
        ensures
            r@ == message_of(*self),
    {
        match self {
            Error::SdpParse => "SdpParse",
            Error::MissingIceCredentials => "MissingIceCredentials",
            Error::RemoteDescriptionWithoutMidValue => "RemoteDescriptionWithoutMidValue",
            Error::TransceiverMidNil => "TransceiverMidNil",
            Error::InvalidCertificate => "InvalidCertificate",
        }
    }
}

/// The reason text of each error value.
pub open spec fn message_of(e: Error) -> Seq<char> {
    match e {
        Error::SdpParse => "SdpParse"@,
        Error::MissingIceCredentials => "MissingIceCredentials"@,
        Error::RemoteDescriptionWithoutMidValue => "RemoteDescriptionWithoutMidValue"@,
        Error::TransceiverMidNil => "TransceiverMidNil"@,
        Error::InvalidCertificate => "InvalidCertificate"@,
    }
}

} // verus!
