use vstd::prelude::*;

use crate::error::Error;
use crate::transceiver::{CodecType, Direction};

verus! {

/// One SDP attribute: its key and, if the line had a `:`, its value.
pub struct Attr {
    pub key: String,
    pub value: Option<String>,
}

/// The mathematical value of an [`Attr`].
#[verifier::ext_equal]
pub struct AttrView {
    pub key: Seq<char>,
    pub value: Option<Seq<char>>,
}

impl View for Attr {
    type V = AttrView;

    open spec fn view(&self) -> AttrView {
        AttrView {
            key: self.key@,
            value: match self.value {
                Some(v) => Some(v@),
                None => None,
            },
        }
    }
}

/// One media description of a parsed offer: the `m=` line's media type and
/// the media-level attributes, in their original order.
pub struct MediaDesc {
    pub media_type: String,
    pub attrs: Vec<Attr>,
}

/// The mathematical value of a [`MediaDesc`].
#[verifier::ext_equal]
pub struct MediaDescView {
    pub media_type: Seq<char>,
    pub attrs: Seq<AttrView>,
}

impl View for MediaDesc {
    type V = MediaDescView;

    open spec fn view(&self) -> MediaDescView {
        MediaDescView {
            media_type: self.media_type@,
            attrs: self.attrs@.map_values(|a: Attr| a@),
        }
    }
}

/// A parsed session description, reduced to what negotiation reads:
/// session-level attributes and the ordered media descriptions.
pub struct ParsedSdp {
    pub session_attrs: Vec<Attr>,
    pub media: Vec<MediaDesc>,
}

/// The mathematical value of a [`ParsedSdp`].
#[verifier::ext_equal]
pub struct ParsedSdpView {
    pub session_attrs: Seq<AttrView>,
    pub media: Seq<MediaDescView>,
}

impl View for ParsedSdp {
    type V = ParsedSdpView;

    open spec fn view(&self) -> ParsedSdpView {
        ParsedSdpView {
            session_attrs: self.session_attrs@.map_values(|a: Attr| a@),
            media: self.media@.map_values(|m: MediaDesc| m@),
        }
    }
}

/// Whether a session description is an offer or an answer.
#[derive(Clone, Copy, Debug, PartialEq, Eq, Structural)]
pub enum SdpType {
    Offer,
    Answer,
}

/// A session description as it crosses the signaling boundary: its type,
/// its raw text, and, once `unmarshal` has run, its parsed form.
pub struct RTCSessionDescription {
    pub sdp_type: SdpType,
    pub sdp: String,
    pub parsed: Option<ParsedSdp>,
}

/// The mathematical value of an [`RTCSessionDescription`].
#[verifier::ext_equal]
pub struct RTCSessionDescriptionView {
    pub sdp_type: SdpType,
    pub sdp: Seq<char>,
    pub parsed: Option<ParsedSdpView>,
}

impl View for RTCSessionDescription {
    type V = RTCSessionDescriptionView;

    open spec fn view(&self) -> RTCSessionDescriptionView {
        RTCSessionDescriptionView {
            sdp_type: self.sdp_type,
            sdp: self.sdp@,
            parsed: match self.parsed {
                Some(p) => Some(p@),
                None => None,
            },
        }
    }
}

/// What the SDP parser makes of a text: `None` where the text is not a
/// session description, otherwise its session and media attributes.
pub uninterp spec fn sdp_parse_spec(s: Seq<char>) -> Option<ParsedSdpView>;

/// Relies on sdp's `SessionDescription::unmarshal`: whether and how a text
/// parses as a session description depends on the text alone; the session
/// and media attributes returned here are the parsed ones, in order.
#[verifier::external_body]
fn parse_sdp_text(s: &str) -> (r: Option<ParsedSdp>)
    ensures
        match sdp_parse_spec(s@) {
            Some(p) => r matches Some(d) && d@ == p,
            None => r is None,
        },
{
    let sd = sdp::SessionDescription::unmarshal(&mut std::io::Cursor::new(s)).ok()?;
    Some(ParsedSdp {
        session_attrs: sd.attributes.iter().map(|a| Attr { key: a.key.clone(), value: a.value.clone() }).collect(),
        media: sd.media_descriptions.iter().map(|m| MediaDesc {
            media_type: m.media_name.media.clone(),
            attrs: m.attributes.iter().map(|a| Attr { key: a.key.clone(), value: a.value.clone() }).collect(),
        }).collect(),
    })
}

impl RTCSessionDescription {
    /// Builds an offer description from its raw text; the parsed form is
    /// filled in later by `unmarshal`.
    pub fn offer(sdp: String) -> (r: RTCSessionDescription)
        ensures
            r@.sdp_type == SdpType::Offer,
            r@.sdp == sdp@,
            r@.parsed is None,
    {
        RTCSessionDescription { sdp_type: SdpType::Offer, sdp, parsed: None }
    }

    /// Parses this description's text, exactly as the SDP parser reads it.
    pub fn unmarshal(&self) -> (r: Result<ParsedSdp, Error>)
        ensures
            match sdp_parse_spec(self.sdp@) {
                Some(p) => r matches Ok(d) && d@ == p,
                None => r matches Err(e) && e == Error::SdpParse,
            },
    {
        match parse_sdp_text(self.sdp.as_str()) {
            Some(d) => Ok(d),
            None => Err(Error::SdpParse),
        }
    }
}

/// The first attribute carrying the given key, if any.
pub open spec fn find_attr(attrs: Seq<AttrView>, key: Seq<char>) -> Option<AttrView>
    decreases attrs.len(),
{
    if attrs.len() == 0 {
        None
    } else if attrs[0].key == key {
        Some(attrs[0])
    } else {
        find_attr(attrs.drop_first(), key)
    }
}

proof fn lemma_find_attr_skip(attrs: Seq<AttrView>, key: Seq<char>, i: int)
    requires
        0 <= i <= attrs.len(),
        forall|j: int| 0 <= j < i ==> attrs[j].key != key,
    ensures
        find_attr(attrs, key) == find_attr(attrs.skip(i), key),
    decreases i,
{
    if i > 0 {
        lemma_find_attr_skip(attrs, key, i - 1);
        assert(attrs.skip(i - 1).len() > 0);
        assert(attrs.skip(i - 1)[0] == attrs[i - 1]);
        assert(attrs.skip(i - 1).drop_first() =~= attrs.skip(i));
    } else {
        assert(attrs.skip(0) =~= attrs);
    }
}

/// Looks up the first attribute with the given key.
pub fn find_attribute<'a>(attrs: &'a Vec<Attr>, key: &String) -> (r: Option<&'a Attr>)
    ensures
        match r {
            Some(a) => find_attr(attrs@.map_values(|x: Attr| x@), key@) == Some(a@),
            None => find_attr(attrs@.map_values(|x: Attr| x@), key@) is None,
        },
{
    let ghost vs = attrs@.map_values(|x: Attr| x@);
    let mut i: usize = 0;
    while i < attrs.len()
        invariant
            0 <= i <= attrs.len(),
            vs == attrs@.map_values(|x: Attr| x@),
            vs.len() == attrs@.len(),
            forall|j: int| 0 <= j < i ==> vs[j].key != key@,
        decreases attrs.len() - i,
    {
        if attrs[i].key == *key {
            proof {
                lemma_find_attr_skip(vs, key@, i as int);
                assert(vs.skip(i as int)[0] == vs[i as int]);
            }
            return Some(&attrs[i]);
        }
        i += 1;
    }
    proof {
        lemma_find_attr_skip(vs, key@, i as int);
        assert(vs.skip(i as int).len() == 0);
    }
    None
}

/// The `mid` attribute's value, where the media description has one.
pub open spec fn mid_value(m: MediaDescView) -> Option<Seq<char>> {
    match find_attr(m.attrs, "mid"@) {
        Some(a) => a.value,
        None => None,
    }
}

/// Reads the `mid` attribute of a media description.
pub fn get_mid_value(m: &MediaDesc) -> (r: Option<&String>)
    ensures
        match r {
            Some(s) => mid_value(m@) == Some(s@),
            None => mid_value(m@) is None,
        },
{
    let key: String = String::from_str("mid");
    match find_attribute(&m.attrs, &key) {
        Some(a) => match &a.value {
            Some(v) => Some(v),
            None => None,
        },
        None => None,
    }
}

/// The media kind an `m=` line declares, by its media-type name.
pub open spec fn kind_of(m: MediaDescView) -> CodecType {
    if m.media_type == "audio"@ {
        CodecType::Audio
    } else if m.media_type == "video"@ {
        CodecType::Video
    } else {
        CodecType::Unspecified
    }
}

/// Classifies a media description as audio, video, or unspecified.
pub fn get_kind(m: &MediaDesc) -> (r: CodecType)
    ensures
        r == kind_of(m@),
{
    if m.media_type == String::from_str("audio") {
        CodecType::Audio
    } else if m.media_type == String::from_str("video") {
        CodecType::Video
    } else {
        CodecType::Unspecified
    }
}

/// Whether a media description is the reserved application (data channel)
/// type.
pub open spec fn is_application(m: MediaDescView) -> bool {
    m.media_type == "application"@
}

/// Tests for the reserved application (data channel) media type.
pub fn media_is_application(m: &MediaDesc) -> (r: bool)
    ensures
        r == is_application(m@),
{
    m.media_type == String::from_str("application")
}

/// The direction declared by a run of attributes: the first of the four
/// direction keys wins; none of them means unspecified.
pub open spec fn direction_of_attrs(attrs: Seq<AttrView>) -> Direction
    decreases attrs.len(),
{
    if attrs.len() == 0 {
        Direction::Unspecified
    } else if attrs[0].key == "sendrecv"@ {
        Direction::Sendrecv
    } else if attrs[0].key == "sendonly"@ {
        Direction::Sendonly
    } else if attrs[0].key == "recvonly"@ {
        Direction::Recvonly
    } else if attrs[0].key == "inactive"@ {
        Direction::Inactive
    } else {
        direction_of_attrs(attrs.drop_first())
    }
}

/// The direction the peer declares on a media description.
pub open spec fn peer_direction(m: MediaDescView) -> Direction {
    direction_of_attrs(m.attrs)
}

proof fn lemma_direction_skip(attrs: Seq<AttrView>, i: int)
    requires
        0 <= i <= attrs.len(),
        forall|j: int| 0 <= j < i ==> attrs[j].key != "sendrecv"@,
        forall|j: int| 0 <= j < i ==> attrs[j].key != "sendonly"@,
        forall|j: int| 0 <= j < i ==> attrs[j].key != "recvonly"@,
        forall|j: int| 0 <= j < i ==> attrs[j].key != "inactive"@,
    ensures
        direction_of_attrs(attrs) == direction_of_attrs(attrs.skip(i)),
    decreases i,
{
    if i > 0 {
        lemma_direction_skip(attrs, i - 1);
        assert(attrs.skip(i - 1).len() > 0);
        assert(attrs.skip(i - 1)[0] == attrs[i - 1]);
        assert(attrs.skip(i - 1).drop_first() =~= attrs.skip(i));
    } else {
        assert(attrs.skip(0) =~= attrs);
    }
}

/// Reads the direction the peer declares on a media description.
pub fn get_peer_direction(m: &MediaDesc) -> (r: Direction)
    ensures
        r == peer_direction(m@),
{
    let sendrecv: String = String::from_str("sendrecv");
    let sendonly: String = String::from_str("sendonly");
    let recvonly: String = String::from_str("recvonly");
    let inactive: String = String::from_str("inactive");
    let ghost vs = m.attrs@.map_values(|x: Attr| x@);
    let mut i: usize = 0;
    while i < m.attrs.len()
        invariant
            0 <= i <= m.attrs.len(),
            vs == m.attrs@.map_values(|x: Attr| x@),
            vs.len() == m.attrs@.len(),
            sendrecv@ == "sendrecv"@,
            sendonly@ == "sendonly"@,
            recvonly@ == "recvonly"@,
            inactive@ == "inactive"@,
            forall|j: int| 0 <= j < i ==> vs[j].key != "sendrecv"@,
            forall|j: int| 0 <= j < i ==> vs[j].key != "sendonly"@,
            forall|j: int| 0 <= j < i ==> vs[j].key != "recvonly"@,
            forall|j: int| 0 <= j < i ==> vs[j].key != "inactive"@,
        decreases m.attrs.len() - i,
    {
        proof {
            lemma_direction_skip(vs, i as int);
            assert(vs.skip(i as int)[0] == vs[i as int]);
        }
        if m.attrs[i].key == sendrecv {
            return Direction::Sendrecv;
        } else if m.attrs[i].key == sendonly {
            return Direction::Sendonly;
        } else if m.attrs[i].key == recvonly {
            return Direction::Recvonly;
        } else if m.attrs[i].key == inactive {
            return Direction::Inactive;
        }
        i += 1;
    }
    proof {
        lemma_direction_skip(vs, i as int);
        assert(vs.skip(i as int).len() == 0);
    }
    Direction::Unspecified
}


/// The index of the first space of a text, or its length where it has none.
pub open spec fn first_space(v: Seq<char>) -> int
    decreases v.len(),
{
    if v.len() == 0 {
        0
    } else if v[0] == ' ' {
        0
    } else {
        1 + first_space(v.drop_first())
    }
}

/// The text up to, not including, its first space.
pub open spec fn token_prefix(v: Seq<char>) -> Seq<char> {
    v.take(first_space(v))
}

/// The text after its first space; empty where it has no space.
pub open spec fn token_rest(v: Seq<char>) -> Seq<char> {
    if first_space(v) < v.len() {
        v.skip(first_space(v) + 1)
    } else {
        Seq::empty()
    }
}

proof fn lemma_first_space_skip(v: Seq<char>, i: int)
    requires
        0 <= i <= v.len(),
        forall|j: int| 0 <= j < i ==> v[j] != ' ',
    ensures
        first_space(v) == i + first_space(v.skip(i)),
    decreases i,
{
    if i > 0 {
        lemma_first_space_skip(v, i - 1);
        assert(v.skip(i - 1).len() > 0);
        assert(v.skip(i - 1)[0] == v[i - 1]);
        assert(v.skip(i - 1).drop_first() =~= v.skip(i));
    } else {
        assert(v.skip(0) =~= v);
    }
}

/// Splits a text at its first space: the token before it and the rest
/// after it.
pub fn split_first_token(s: &String) -> (r: (String, String))
    ensures
        r.0@ == token_prefix(s@),
        r.1@ == token_rest(s@),
{
    let n = s.as_str().unicode_len();
    let mut i: usize = 0;
    while i < n
        invariant
            0 <= i <= n,
            n == s@.len(),
            forall|j: int| 0 <= j < i ==> s@[j] != ' ',
        decreases n - i,
    {
        if s.as_str().get_char(i) == ' ' {
            proof {
                lemma_first_space_skip(s@, i as int);
                assert(s@.skip(i as int)[0] == s@[i as int]);
                assert(first_space(s@) == i as int);
            }
            let prefix = s.as_str().substring_char(0, i).to_owned();
            let rest = s.as_str().substring_char(i + 1, n).to_owned();
            return (prefix, rest);
        }
        i += 1;
    }
    proof {
        lemma_first_space_skip(s@, i as int);
        assert(s@.skip(i as int).len() == 0);
        assert(first_space(s@) == s@.len());
        assert(token_prefix(s@) =~= s@);
    }
    (s.clone(), String::new())
}

/// The simulcast restriction identifiers a run of attributes declares: for
/// each `rid` attribute with a value, the token before its first space.
pub open spec fn rids_of_attrs(attrs: Seq<AttrView>) -> Seq<Seq<char>>
    decreases attrs.len(),
{
    if attrs.len() == 0 {
        Seq::empty()
    } else {
        (match attrs[0].value {
            Some(v) => if attrs[0].key == "rid"@ {
                seq![token_prefix(v)]
            } else {
                Seq::empty()
            },
            None => Seq::empty(),
        }) + rids_of_attrs(attrs.drop_first())
    }
}

/// The simulcast restriction identifiers of a media description.
pub open spec fn rids_of(m: MediaDescView) -> Seq<Seq<char>> {
    rids_of_attrs(m.attrs)
}

/// Collects the simulcast restriction identifiers a media description
/// declares, in order.
pub fn get_rids(m: &MediaDesc) -> (r: Vec<String>)
    ensures
        r@.map_values(|s: String| s@) == rids_of(m@),
{
    let rid_key: String = String::from_str("rid");
    let ghost vs = m.attrs@.map_values(|x: Attr| x@);
    let mut r: Vec<String> = Vec::new();
    let mut i: usize = 0;
    proof {
        assert(vs.skip(0) =~= vs);
    }
    while i < m.attrs.len()
        invariant
            0 <= i <= m.attrs.len(),
            vs == m.attrs@.map_values(|x: Attr| x@),
            vs.len() == m.attrs@.len(),
            rid_key@ == "rid"@,
            rids_of_attrs(vs) =~= r@.map_values(|s: String| s@) + rids_of_attrs(
                vs.skip(i as int),
            ),
        decreases m.attrs.len() - i,
    {
        proof {
            assert(vs.skip(i as int)[0] == vs[i as int]);
            assert(vs.skip(i as int).drop_first() =~= vs.skip(i as int + 1));
        }
        let a = &m.attrs[i];
        if a.key == rid_key {
            match &a.value {
                Some(v) => {
                    let (prefix, _rest) = split_first_token(v);
                    r.push(prefix);
                },
                None => {},
            }
        }
        proof {
            assert(rids_of_attrs(vs) =~= r@.map_values(|s: String| s@) + rids_of_attrs(
                vs.skip(i as int + 1),
            ));
        }
        i += 1;
    }
    proof {
        assert(rids_of_attrs(vs.skip(i as int)).len() == 0);
        assert(rids_of_attrs(vs) =~= r@.map_values(|s: String| s@));
    }
    r
}

} // verus!
