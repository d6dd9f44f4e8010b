use vstd::prelude::*;

verus! {

/// The direction a media line declares: who intends to send and to receive.
#[derive(Clone, Copy, Debug, PartialEq, Eq, Structural)]
pub enum Direction {
    Sendrecv,
    Sendonly,
    Recvonly,
    Inactive,
    Unspecified,
}

impl Direction {
    /// The direction the answer mirrors back: what the peer sends, we
    /// receive, and the other way round.
    pub fn reverse(&self) -> (r: Direction)
        ensures
            r == reverse_direction(*self),
    {
        match self {
            Direction::Sendrecv => Direction::Sendrecv,
            Direction::Sendonly => Direction::Recvonly,
            Direction::Recvonly => Direction::Sendonly,
            Direction::Inactive => Direction::Inactive,
            Direction::Unspecified => Direction::Unspecified,
        }
    }
}

/// The mirrored direction: send becomes receive and receive becomes send.
pub open spec fn reverse_direction(d: Direction) -> Direction {
    match d {
        Direction::Sendrecv => Direction::Sendrecv,
        Direction::Sendonly => Direction::Recvonly,
        Direction::Recvonly => Direction::Sendonly,
        Direction::Inactive => Direction::Inactive,
        Direction::Unspecified => Direction::Unspecified,
    }
}

/// The media kind of a transceiver or media line.
#[derive(Clone, Copy, Debug, PartialEq, Eq, Structural)]
pub enum CodecType {
    Audio,
    Video,
    Unspecified,
}

/// One negotiable codec: its payload type and its `rtpmap` encoding text,
/// for instance `opus/48000/2`.
pub struct Codec {
    pub payload_type: u8,
    pub encoding: String,
}

/// The mathematical value of a [`Codec`].
#[verifier::ext_equal]
pub struct CodecView {
    pub payload_type: u8,
    pub encoding: Seq<char>,
}

impl View for Codec {
    type V = CodecView;

    open spec fn view(&self) -> CodecView {
        CodecView { payload_type: self.payload_type, encoding: self.encoding@ }
    }
}

impl Codec {
    pub fn new(payload_type: u8, encoding: String) -> (r: Codec)
        ensures
            r@.payload_type == payload_type,
            r@.encoding == encoding@,
    {
        Codec { payload_type, encoding }
    }
}

/// One local transceiver: a capability of this side, addressed by its `mid`.
pub struct RtpTransceiver {
    pub mid: String,
    pub kind: CodecType,
    pub direction: Direction,
    pub codecs: Vec<Codec>,
    /// Set once the transceiver has been used to answer a media line.
    pub negotiated: bool,
}

/// The mathematical value of an [`RtpTransceiver`].
#[verifier::ext_equal]
pub struct RtpTransceiverView {
    pub mid: Seq<char>,
    pub kind: CodecType,
    pub direction: Direction,
    pub codecs: Seq<CodecView>,
    pub negotiated: bool,
}

impl View for RtpTransceiver {
    type V = RtpTransceiverView;

    open spec fn view(&self) -> RtpTransceiverView {
        RtpTransceiverView {
            mid: self.mid@,
            kind: self.kind,
            direction: self.direction,
            codecs: self.codecs@.map_values(|c: Codec| c@),
            negotiated: self.negotiated,
        }
    }
}

impl RtpTransceiver {
    pub fn new(mid: String, kind: CodecType, direction: Direction, codecs: Vec<Codec>) -> (r:
        RtpTransceiver)
        ensures
            r@.mid == mid@,
            r@.kind == kind,
            r@.direction == direction,
            r@.codecs == codecs@.map_values(|c: Codec| c@),
            r@.negotiated == false,
    {
        RtpTransceiver { mid, kind, direction, codecs, negotiated: false }
    }
}

/// The spec-level copy of a transceiver with `negotiated` set.
pub open spec fn negotiated_view(t: RtpTransceiverView) -> RtpTransceiverView {
    RtpTransceiverView {
        mid: t.mid,
        kind: t.kind,
        direction: t.direction,
        codecs: t.codecs,
        negotiated: true,
    }
}

/// One media line of the answer under construction: either a data
/// (application) section, carrying nothing further, or a matched section
/// carrying the transceiver that answers it, the offer's simulcast
/// restriction identifiers, and the direction the offer declared.
pub struct MediaSection {
    pub id: String,
    pub transceivers: Vec<RtpTransceiver>,
    pub data: bool,
    pub rid_map: Vec<String>,
    pub offered_direction: Option<Direction>,
}

/// The mathematical value of a [`MediaSection`].
#[verifier::ext_equal]
pub struct MediaSectionView {
    pub id: Seq<char>,
    pub transceivers: Seq<RtpTransceiverView>,
    pub data: bool,
    pub rid_map: Seq<Seq<char>>,
    pub offered_direction: Option<Direction>,
}

impl View for MediaSection {
    type V = MediaSectionView;

    open spec fn view(&self) -> MediaSectionView {
        MediaSectionView {
            id: self.id@,
            transceivers: self.transceivers@.map_values(|t: RtpTransceiver| t@),
            data: self.data,
            rid_map: self.rid_map@.map_values(|r: String| r@),
            offered_direction: self.offered_direction,
        }
    }
}


impl Codec {
    pub fn clone(&self) -> (r: Codec)
        ensures
            r@ == self@,
    {
        Codec { payload_type: self.payload_type, encoding: self.encoding.clone() }
    }
}

/// Copies a codec list.
pub fn clone_codecs(v: &Vec<Codec>) -> (r: Vec<Codec>)
    ensures
        r@.map_values(|c: Codec| c@) == v@.map_values(|c: Codec| c@),
{
    let mut r: Vec<Codec> = Vec::new();
    let mut i: usize = 0;
    while i < v.len()
        invariant
            0 <= i <= v.len(),
            r@.len() == i,
            forall|j: int| 0 <= j < i ==> r@[j]@ == v@[j]@,
        decreases v.len() - i,
    {
        r.push(v[i].clone());
        i += 1;
    }
    proof {
        assert(r@.map_values(|c: Codec| c@) =~= v@.map_values(|c: Codec| c@));
    }
    r
}

impl RtpTransceiver {
    pub fn clone(&self) -> (r: RtpTransceiver)
        ensures
            r@ == self@,
    {
        let r = RtpTransceiver {
            mid: self.mid.clone(),
            kind: self.kind,
            direction: self.direction,
            codecs: clone_codecs(&self.codecs),
            negotiated: self.negotiated,
        };
        proof {
            assert(r@ =~= self@);
        }
        r
    }
}

/// Copies a transceiver list.
pub fn clone_transceivers(v: &Vec<RtpTransceiver>) -> (r: Vec<RtpTransceiver>)
    ensures
        r@.map_values(|t: RtpTransceiver| t@) == v@.map_values(|t: RtpTransceiver| t@),
{
    let mut r: Vec<RtpTransceiver> = Vec::new();
    let mut i: usize = 0;
    while i < v.len()
        invariant
            0 <= i <= v.len(),
            r@.len() == i,
            forall|j: int| 0 <= j < i ==> r@[j]@ == v@[j]@,
        decreases v.len() - i,
    {
        r.push(v[i].clone());
        i += 1;
    }
    proof {
        assert(r@.map_values(|t: RtpTransceiver| t@) =~= v@.map_values(|t: RtpTransceiver| t@));
    }
    r
}

} // verus!
