use vstd::prelude::*;

use crate::candidate::Candidate;
use crate::credentials::{
    dtls_complement, ice_pwd_of, ice_ufrag_of, setup_role_of, Certificate, ConnectionCredentials,
    DtlsRole,
};
use crate::description::{
    get_kind, get_mid_value, get_peer_direction, get_rids, is_application, kind_of,
    media_is_application, mid_value, peer_direction, rids_of, sdp_parse_spec, MediaDescView,
    ParsedSdp, RTCSessionDescription, SdpType,
};
use crate::error::Error;
use crate::marshal::{answer_sdp_text, dec_str, marshal_answer, u64_to_string};
use crate::transceiver::{
    clone_transceivers, negotiated_view, CodecType, Direction, MediaSection, MediaSectionView,
    RtpTransceiver, RtpTransceiverView,
};
use crate::transport::SocketAddress;

verus! {

/// The section a data (application) media line becomes: data flag only.
pub open spec fn data_section_view(mid: Seq<char>) -> MediaSectionView {
    MediaSectionView {
        id: mid,
        transceivers: Seq::empty(),
        data: true,
        rid_map: Seq::empty(),
        offered_direction: None,
    }
}

/// The section a matched media line becomes: the matching transceiver,
/// marked negotiated, the offer's restriction identifiers, and, when
/// answering, the offer's declared direction.
pub open spec fn matched_section_view(
    mid: Seq<char>,
    t: RtpTransceiverView,
    rids: Seq<Seq<char>>,
    offered: Option<Direction>,
) -> MediaSectionView {
    MediaSectionView {
        id: mid,
        transceivers: seq![negotiated_view(t)],
        data: false,
        rid_map: rids,
        offered_direction: offered,
    }
}

/// The section an unmatched local transceiver becomes when a fresh offer
/// is generated: its own mid, marked negotiated, no offered direction.
pub open spec fn unmatched_section_view(t: RtpTransceiverView) -> MediaSectionView {
    MediaSectionView {
        id: t.mid,
        transceivers: seq![negotiated_view(t)],
        data: false,
        rid_map: Seq::empty(),
        offered_direction: None,
    }
}

/// The index of the first local transceiver whose mid is the given one.
pub open spec fn find_transceiver(ts: Seq<RtpTransceiverView>, mid: Seq<char>) -> Option<int>
    decreases ts.len(),
{
    if ts.len() == 0 {
        None
    } else if ts[0].mid == mid {
        Some(0int)
    } else {
        match find_transceiver(ts.drop_first(), mid) {
            Some(i) => Some(i + 1),
            None => None,
        }
    }
}

pub proof fn lemma_find_transceiver_in_range(ts: Seq<RtpTransceiverView>, mid: Seq<char>)
    ensures
        match find_transceiver(ts, mid) {
            Some(i) => 0 <= i < ts.len() && ts[i].mid == mid,
            None => forall|j: int| 0 <= j < ts.len() ==> ts[j].mid != mid,
        },
    decreases ts.len(),
{
    if ts.len() > 0 && ts[0].mid != mid {
        lemma_find_transceiver_in_range(ts.drop_first(), mid);
        match find_transceiver(ts.drop_first(), mid) {
            Some(i) => {
                assert(ts.drop_first()[i] == ts[i + 1]);
            },
            None => {
                assert forall|j: int| 0 <= j < ts.len() implies ts[j].mid != mid by {
                    if j > 0 {
                        assert(ts.drop_first()[j - 1] == ts[j]);
                    }
                }
            },
        }
    }
}

proof fn lemma_find_transceiver_skip(ts: Seq<RtpTransceiverView>, mid: Seq<char>, i: int)
    requires
        0 <= i <= ts.len(),
        forall|j: int| 0 <= j < i ==> ts[j].mid != mid,
    ensures
        find_transceiver(ts, mid) == match find_transceiver(ts.skip(i), mid) {
            Some(j) => Some(i + j),
            None => None::<int>,
        },
    decreases i,
{
    if i > 0 {
        lemma_find_transceiver_skip(ts, mid, i - 1);
        assert(ts.skip(i - 1).len() > 0);
        assert(ts.skip(i - 1)[0] == ts[i - 1]);
        assert(ts.skip(i - 1).drop_first() =~= ts.skip(i));
    } else {
        assert(ts.skip(0) =~= ts);
    }
}

/// One pass over the offer's media descriptions: the sections they
/// produce, in offer order, paired with the local transceivers left
/// unmatched.
///
/// Every media line needs a non-empty mid, or negotiation fails. An
/// application line becomes a data section; a line of unrecognized kind
/// or direction is skipped; any other line must match a local
/// transceiver by mid, which it consumes — an unmatched mid fails
/// negotiation.
pub open spec fn match_media(
    media: Seq<MediaDescView>,
    ts: Seq<RtpTransceiverView>,
    include_unmatched: bool,
) -> Result<(Seq<MediaSectionView>, Seq<RtpTransceiverView>), Error>
    decreases media.len(),
{
    if media.len() == 0 {
        Ok((Seq::empty(), ts))
    } else {
        let m = media[0];
        match mid_value(m) {
            None => Err(Error::RemoteDescriptionWithoutMidValue),
            Some(mid) => if mid.len() == 0 {
                Err(Error::RemoteDescriptionWithoutMidValue)
            } else if is_application(m) {
                prepend_sections(
                    seq![data_section_view(mid)],
                    match_media(media.drop_first(), ts, include_unmatched),
                )
            } else if kind_of(m) == CodecType::Unspecified || peer_direction(m)
                == Direction::Unspecified {
                match_media(media.drop_first(), ts, include_unmatched)
            } else {
                match find_transceiver(ts, mid) {
                    Some(i) => prepend_sections(
                        seq![
                            matched_section_view(
                                mid,
                                ts[i],
                                rids_of(m),
                                if include_unmatched {
                                    None
                                } else {
                                    Some(peer_direction(m))
                                },
                            ),
                        ],
                        match_media(media.drop_first(), ts.remove(i), include_unmatched),
                    ),
                    None => Err(Error::TransceiverMidNil),
                }
            },
        }
    }
}

/// Prefixes already-produced sections onto the outcome of matching the
/// remaining media descriptions.
pub open spec fn prepend_sections(
    done: Seq<MediaSectionView>,
    r: Result<(Seq<MediaSectionView>, Seq<RtpTransceiverView>), Error>,
) -> Result<(Seq<MediaSectionView>, Seq<RtpTransceiverView>), Error> {
    match r {
        Ok((rest, rem)) => Ok((done + rest, rem)),
        Err(e) => Err(e),
    }
}

proof fn lemma_prepend_empty(r: Result<(Seq<MediaSectionView>, Seq<RtpTransceiverView>), Error>)
    ensures
        prepend_sections(Seq::empty(), r) == r,
{
    match r {
        Ok((rest, rem)) => {
            assert(Seq::<MediaSectionView>::empty() + rest =~= rest);
        },
        Err(_) => {},
    }
}

proof fn lemma_prepend_assoc(
    a: Seq<MediaSectionView>,
    b: Seq<MediaSectionView>,
    r: Result<(Seq<MediaSectionView>, Seq<RtpTransceiverView>), Error>,
)
    ensures
        prepend_sections(a, prepend_sections(b, r)) == prepend_sections(a + b, r),
{
    match r {
        Ok((rest, rem)) => {
            assert(a + (b + rest) =~= (a + b) + rest);
        },
        Err(_) => {},
    }
}

/// Whether any of the sections is a data section.
pub open spec fn has_data_section(secs: Seq<MediaSectionView>) -> bool {
    exists|i: int| 0 <= i < secs.len() && secs[i].data
}

/// The complete ordered section list an offer is answered with: the
/// matched sections in offer order and, only when a fresh offer is being
/// generated, the unmatched local transceivers and a final data section
/// where none exists yet.
pub open spec fn matched_sections(
    media: Seq<MediaDescView>,
    ts: Seq<RtpTransceiverView>,
    include_unmatched: bool,
) -> Result<Seq<MediaSectionView>, Error> {
    match match_media(media, ts, include_unmatched) {
        Ok((secs, rem)) => if include_unmatched {
            let with_ts = secs + rem.map_values(|t: RtpTransceiverView| unmatched_section_view(t));
            if has_data_section(secs) {
                Ok(with_ts)
            } else {
                Ok(with_ts.push(data_section_view(dec_str(with_ts.len() as nat))))
            }
        } else {
            Ok(secs)
        },
        Err(e) => Err(e),
    }
}

/// One conference's negotiation state: its id, the address and
/// certificate answers are built from, and the local transceiver set
/// offers are matched against.
pub struct Session {
    pub session_id: u64,
    pub local_addr: SocketAddress,
    pub certificate: Certificate,
    pub transceivers: Vec<RtpTransceiver>,
}

impl Session {
    /// A session is usable while its certificate exposes a fingerprint.
    pub open spec fn wf(&self) -> bool {
        self.certificate@.fingerprints.len() > 0
    }

    /// The view of this session's transceiver set.
    pub open spec fn transceivers_view(&self) -> Seq<RtpTransceiverView> {
        self.transceivers@.map_values(|t: RtpTransceiver| t@)
    }

    /// The answer text this session writes for the given sections and
    /// local ICE credentials.
    pub open spec fn answer_text_for(
        &self,
        secs: Seq<MediaSectionView>,
        ufrag: Seq<char>,
        pwd: Seq<char>,
        role: DtlsRole,
    ) -> Seq<char> {
        answer_sdp_text(
            secs,
            ufrag,
            pwd,
            role,
            self.certificate@.fingerprints[0].algorithm,
            self.certificate@.fingerprints[0].value,
            self.local_addr@.address,
            self.session_id,
        )
    }

    pub fn new(session_id: u64, local_addr: SocketAddress, certificate: Certificate) -> (r:
        Session)
        requires
            certificate@.fingerprints.len() > 0,
        ensures
            r.wf(),
            r.session_id == session_id,
            r.local_addr@ == local_addr@,
            r.certificate@ == certificate@,
            r.transceivers@.len() == 0,
    {
        Session { session_id, local_addr, certificate, transceivers: Vec::new() }
    }

    pub fn session_id(&self) -> (r: u64)
        ensures
            r == self.session_id,
    {
        self.session_id
    }

    /// Registers a local capability offers can be matched against.
    pub fn add_transceiver(&mut self, t: RtpTransceiver)
        ensures
            final(self).transceivers@ == old(self).transceivers@.push(t),
            final(self).session_id == old(self).session_id,
            final(self).local_addr == old(self).local_addr,
            final(self).certificate == old(self).certificate,
    {
        self.transceivers.push(t);
    }

    /// Removes and returns the first local transceiver with the given
    /// mid, as the matching step consumes it.
    fn find_by_mid(mid: &String, ts: &mut Vec<RtpTransceiver>) -> (r: Option<RtpTransceiver>)
        ensures
            match find_transceiver(old(ts)@.map_values(|t: RtpTransceiver| t@), mid@) {
                Some(i) => r matches Some(t) && t@ == old(ts)@.map_values(
                    |t: RtpTransceiver| t@,
                )[i] && final(ts)@.map_values(|t: RtpTransceiver| t@) == old(ts)@.map_values(
                    |t: RtpTransceiver| t@,
                ).remove(i),
                None => r is None && final(ts)@ == old(ts)@,
            },
    {
        let ghost vs = old(ts)@.map_values(|t: RtpTransceiver| t@);
        let mut i: usize = 0;
        while i < ts.len()
            invariant
                0 <= i <= ts.len(),
                ts@ == old(ts)@,
                vs == old(ts)@.map_values(|t: RtpTransceiver| t@),
                vs.len() == old(ts)@.len(),
                forall|j: int| 0 <= j < i ==> vs[j].mid != mid@,
            decreases ts.len() - i,
        {
            if ts[i].mid == *mid {
                proof {
                    lemma_find_transceiver_skip(vs, mid@, i as int);
                    assert(vs.skip(i as int)[0] == vs[i as int]);
                    assert(find_transceiver(vs, mid@) == Some(i as int));
                }
                let t = ts.remove(i);
                proof {
                    assert(ts@.map_values(|t: RtpTransceiver| t@) =~= vs.remove(i as int));
                }
                return Some(t);
            }
            i += 1;
        }
        proof {
            lemma_find_transceiver_skip(vs, mid@, i as int);
            assert(vs.skip(i as int).len() == 0);
        }
        None
    }

    /// Runs the matching pass of [`match_media`] over the offer's media
    /// descriptions, consuming matched transceivers from the given list.
    fn collect_sections(
        remote_description: &ParsedSdp,
        local_transceivers: &mut Vec<RtpTransceiver>,
        include_unmatched: bool,
    ) -> (r: Result<Vec<MediaSection>, Error>)
        ensures
            match match_media(
                remote_description@.media,
                old(local_transceivers)@.map_values(|t: RtpTransceiver| t@),
                include_unmatched,
            ) {
                Ok((secs, rem)) => r matches Ok(v) && v@.map_values(|s: MediaSection| s@) == secs
                    && final(local_transceivers)@.map_values(|t: RtpTransceiver| t@) == rem,
                Err(e) => r matches Err(e2) && e2 == e,
            },
    {
        let ghost mv = remote_description@.media;
        let ghost ts0 = old(local_transceivers)@.map_values(|t: RtpTransceiver| t@);
        let mut sections: Vec<MediaSection> = Vec::new();
        let mut i: usize = 0;
        proof {
            assert(mv.skip(0) =~= mv);
            lemma_prepend_empty(match_media(mv, ts0, include_unmatched));
            assert(sections@.map_values(|s: MediaSection| s@) =~= Seq::<MediaSectionView>::empty());
        }
        while i < remote_description.media.len()
            invariant
                0 <= i <= remote_description.media.len(),
                mv == remote_description@.media,
                mv.len() == remote_description.media@.len(),
                ts0 == old(local_transceivers)@.map_values(|t: RtpTransceiver| t@),
                match_media(mv, ts0, include_unmatched) == prepend_sections(
                    sections@.map_values(|s: MediaSection| s@),
                    match_media(
                        mv.skip(i as int),
                        local_transceivers@.map_values(|t: RtpTransceiver| t@),
                        include_unmatched,
                    ),
                ),
            decreases remote_description.media.len() - i,
        {
            let ghost cur_ts = local_transceivers@.map_values(|t: RtpTransceiver| t@);
            let ghost secs_v = sections@.map_values(|s: MediaSection| s@);
            proof {
                assert(mv.skip(i as int)[0] == mv[i as int]);
                assert(mv.skip(i as int).drop_first() =~= mv.skip(i as int + 1));
            }
            let media = &remote_description.media[i];
            proof {
                assert(media@ == mv[i as int]);
            }
            let mid = match get_mid_value(media) {
                Some(m) => m.clone(),
                None => {
                    return Err(Error::RemoteDescriptionWithoutMidValue);
                },
            };
            if mid.as_str().unicode_len() == 0 {
                return Err(Error::RemoteDescriptionWithoutMidValue);
            }
            if media_is_application(media) {
                sections.push(
                    MediaSection {
                        id: mid,
                        transceivers: Vec::new(),
                        data: true,
                        rid_map: Vec::new(),
                        offered_direction: None,
                    },
                );
                proof {
                    let ghost mid_v = mid_value(mv[i as int])->Some_0;
                    let ghost sec = data_section_view(mid_v);
                    assert(sections@.last()@ =~= sec);
                    assert(sections@.map_values(|s: MediaSection| s@) =~= secs_v.push(
                        sections@.last()@,
                    ));
                    assert(sections@.map_values(|s: MediaSection| s@) =~= secs_v + seq![sec]);
                    assert(match_media(mv.skip(i as int), cur_ts, include_unmatched)
                        == prepend_sections(
                        seq![sec],
                        match_media(mv.skip(i as int + 1), cur_ts, include_unmatched),
                    ));
                    lemma_prepend_assoc(
                        secs_v,
                        seq![sec],
                        match_media(mv.skip(i as int + 1), cur_ts, include_unmatched),
                    );
                }
                i += 1;
                continue ;
            }
            let kind = get_kind(media);
            let direction = get_peer_direction(media);
            if kind == CodecType::Unspecified || direction == Direction::Unspecified {
                i += 1;
                continue ;
            }
            match Self::find_by_mid(&mid, local_transceivers) {
                Some(t) => {
                    proof {
                        lemma_find_transceiver_in_range(cur_ts, mid@);
                    }
                    let ghost ti = find_transceiver(cur_ts, mid@)->Some_0;
                    let negotiated = RtpTransceiver {
                        mid: t.mid,
                        kind: t.kind,
                        direction: t.direction,
                        codecs: t.codecs,
                        negotiated: true,
                    };
                    let mut media_transceivers: Vec<RtpTransceiver> = Vec::new();
                    media_transceivers.push(negotiated);
                    let rid_map = get_rids(media);
                    let offered_direction = if include_unmatched {
                        None
                    } else {
                        Some(direction)
                    };
                    sections.push(
                        MediaSection {
                            id: mid,
                            transceivers: media_transceivers,
                            data: false,
                            rid_map,
                            offered_direction,
                        },
                    );
                    proof {
                        let ghost mid_v = mid_value(mv[i as int])->Some_0;
                        let ghost sec = matched_section_view(
                            mid_v,
                            cur_ts[ti],
                            rids_of(mv[i as int]),
                            if include_unmatched {
                                None
                            } else {
                                Some(peer_direction(mv[i as int]))
                            },
                        );
                        assert(sections@.last()@.transceivers =~= seq![
                            negotiated_view(cur_ts[ti]),
                        ]);
                        assert(sections@.last()@ =~= sec);
                        assert(sections@.map_values(|s: MediaSection| s@) =~= secs_v.push(
                            sections@.last()@,
                        ));
                        assert(sections@.map_values(|s: MediaSection| s@) =~= secs_v + seq![sec]);
                        assert(match_media(mv.skip(i as int), cur_ts, include_unmatched)
                            == prepend_sections(
                            seq![sec],
                            match_media(
                                mv.skip(i as int + 1),
                                cur_ts.remove(ti),
                                include_unmatched,
                            ),
                        ));
                        lemma_prepend_assoc(
                            secs_v,
                            seq![sec],
                            match_media(
                                mv.skip(i as int + 1),
                                cur_ts.remove(ti),
                                include_unmatched,
                            ),
                        );
                    }
                },
                None => {
                    return Err(Error::TransceiverMidNil);
                },
            }
            i += 1;
        }
        proof {
            assert(mv.skip(i as int).len() == 0);
            assert(match_media(
                mv.skip(i as int),
                local_transceivers@.map_values(|t: RtpTransceiver| t@),
                include_unmatched,
            ) == Ok::<(Seq<MediaSectionView>, Seq<RtpTransceiverView>), Error>(
                (
                    Seq::<MediaSectionView>::empty(),
                    local_transceivers@.map_values(|t: RtpTransceiver| t@),
                ),
            ));
            assert(sections@.map_values(|s: MediaSection| s@) + Seq::<MediaSectionView>::empty()
                =~= sections@.map_values(|s: MediaSection| s@));
        }
        Ok(sections)
    }

    /// Generates the answer (or fresh offer) text for a parsed remote
    /// description: the matched media sections in the offer's order,
    /// serialized with the given local credentials, this session's
    /// certificate fingerprint and address, and its id as the origin id.
    pub fn generate_matched_sdp(
        &self,
        remote_description: &ParsedSdp,
        local_connection_credentials: &ConnectionCredentials,
        local_transceivers: Vec<RtpTransceiver>,
        include_unmatched: bool,
    ) -> (r: Result<String, Error>)
        requires
            self.wf(),
        ensures
            match matched_sections(
                remote_description@.media,
                local_transceivers@.map_values(|t: RtpTransceiver| t@),
                include_unmatched,
            ) {
                Ok(secs) => r matches Ok(text) && text@ == self.answer_text_for(
                    secs,
                    local_connection_credentials@.ice_ufrag,
                    local_connection_credentials@.ice_pwd,
                    local_connection_credentials@.dtls_role,
                ),
                Err(e) => r matches Err(e2) && e2 == e,
            },
    {
        let ghost ts0 = local_transceivers@.map_values(|t: RtpTransceiver| t@);
        let mut local_transceivers = local_transceivers;
        let mut sections = match Self::collect_sections(
            remote_description,
            &mut local_transceivers,
            include_unmatched,
        ) {
            Ok(s) => s,
            Err(e) => {
                return Err(e);
            },
        };
        if include_unmatched {
            let ghost secs_v = sections@.map_values(|s: MediaSection| s@);
            let ghost rem_v = local_transceivers@.map_values(|t: RtpTransceiver| t@);
            let mut already_have_application_media_section = false;
            let mut k: usize = 0;
            while k < sections.len()
                invariant
                    0 <= k <= sections.len(),
                    secs_v == sections@.map_values(|s: MediaSection| s@),
                    secs_v.len() == sections@.len(),
                    already_have_application_media_section == exists|i: int|
                        0 <= i < k && secs_v[i].data,
                decreases sections.len() - k,
            {
                if sections[k].data {
                    already_have_application_media_section = true;
                    proof {
                        assert(secs_v[k as int].data);
                    }
                }
                k += 1;
            }
            proof {
                assert(already_have_application_media_section == has_data_section(secs_v));
            }
            let mut j: usize = 0;
            proof {
                assert(rem_v.take(0).map_values(
                    |t: RtpTransceiverView| unmatched_section_view(t),
                ) =~= Seq::<MediaSectionView>::empty());
                assert(sections@.map_values(|s: MediaSection| s@) =~= secs_v + rem_v.take(
                    0,
                ).map_values(|t: RtpTransceiverView| unmatched_section_view(t)));
            }
            while j < local_transceivers.len()
                invariant
                    0 <= j <= local_transceivers.len(),
                    rem_v == local_transceivers@.map_values(|t: RtpTransceiver| t@),
                    rem_v.len() == local_transceivers@.len(),
                    sections@.map_values(|s: MediaSection| s@) == secs_v + rem_v.take(
                        j as int,
                    ).map_values(|t: RtpTransceiverView| unmatched_section_view(t)),
                decreases local_transceivers.len() - j,
            {
                let ghost before_v = sections@.map_values(|s: MediaSection| s@);
                let t = local_transceivers[j].clone();
                let negotiated = RtpTransceiver {
                    mid: t.mid,
                    kind: t.kind,
                    direction: t.direction,
                    codecs: t.codecs,
                    negotiated: true,
                };
                let mid = negotiated.mid.clone();
                let mut media_transceivers: Vec<RtpTransceiver> = Vec::new();
                media_transceivers.push(negotiated);
                sections.push(
                    MediaSection {
                        id: mid,
                        transceivers: media_transceivers,
                        data: false,
                        rid_map: Vec::new(),
                        offered_direction: None,
                    },
                );
                proof {
                    assert(sections@.last()@.transceivers =~= seq![
                        negotiated_view(rem_v[j as int]),
                    ]);
                    assert(sections@.last()@ =~= unmatched_section_view(rem_v[j as int]));
                    assert(sections@.map_values(|s: MediaSection| s@) =~= before_v.push(
                        sections@.last()@,
                    ));
                    assert(rem_v.take(j as int + 1) =~= rem_v.take(j as int).push(
                        rem_v[j as int],
                    ));
                    assert(rem_v.take(j as int + 1).map_values(
                        |t: RtpTransceiverView| unmatched_section_view(t),
                    ) =~= rem_v.take(j as int).map_values(
                        |t: RtpTransceiverView| unmatched_section_view(t),
                    ).push(unmatched_section_view(rem_v[j as int])));
                    assert(sections@.map_values(|s: MediaSection| s@) =~= secs_v + rem_v.take(
                        j as int + 1,
                    ).map_values(|t: RtpTransceiverView| unmatched_section_view(t)));
                }
                j += 1;
            }
            proof {
                assert(rem_v.take(j as int) =~= rem_v);
            }
            if !already_have_application_media_section {
                let mid = u64_to_string(sections.len() as u64);
                sections.push(
                    MediaSection {
                        id: mid,
                        transceivers: Vec::new(),
                        data: true,
                        rid_map: Vec::new(),
                        offered_direction: None,
                    },
                );
                proof {
                    let ghost with_ts = secs_v + rem_v.map_values(
                        |t: RtpTransceiverView| unmatched_section_view(t),
                    );
                    assert(sections@.drop_last().map_values(|s: MediaSection| s@) =~= with_ts);
                    assert(sections@.last()@ =~= data_section_view(
                        dec_str(with_ts.len() as nat),
                    ));
                    assert(sections@.map_values(|s: MediaSection| s@) =~= with_ts.push(
                        sections@.last()@,
                    ));
                    assert(sections@.map_values(|s: MediaSection| s@) =~= with_ts.push(
                        data_section_view(dec_str(with_ts.len() as nat)),
                    ));
                }
            } else {
                proof {
                    assert(sections@.map_values(|s: MediaSection| s@) =~= secs_v + rem_v.map_values(
                        |t: RtpTransceiverView| unmatched_section_view(t),
                    ));
                }
            }
        }
        let fp = &self.certificate.fingerprints[0];
        let text = marshal_answer(
            &sections,
            &local_connection_credentials.ice_ufrag,
            &local_connection_credentials.ice_pwd,
            local_connection_credentials.dtls_role,
            &fp.algorithm,
            &fp.value,
            &self.local_addr.address,
            self.session_id,
        );
        Ok(text)
    }

    /// Builds the pending answer to a parsed remote offer: the matched
    /// sections serialized as an SDP text of type answer. No unmatched
    /// local transceiver is added: the answer mirrors the offer alone.
    pub fn create_pending_answer(
        &self,
        remote_description: &ParsedSdp,
        local_connection_credentials: &ConnectionCredentials,
    ) -> (r: Result<RTCSessionDescription, Error>)
        requires
            self.wf(),
        ensures
            match matched_sections(remote_description@.media, self.transceivers_view(), false) {
                Ok(secs) => r matches Ok(d) && d@.sdp_type == SdpType::Answer && d@.parsed is None
                    && d@.sdp == self.answer_text_for(
                    secs,
                    local_connection_credentials@.ice_ufrag,
                    local_connection_credentials@.ice_pwd,
                    local_connection_credentials@.dtls_role,
                ),
                Err(e) => r matches Err(e2) && e2 == e,
            },
    {
        let local_transceivers = clone_transceivers(&self.transceivers);
        let sdp = match self.generate_matched_sdp(
            remote_description,
            local_connection_credentials,
            local_transceivers,
            false,
        ) {
            Ok(text) => text,
            Err(e) => {
                return Err(e);
            },
        };
        Ok(RTCSessionDescription { sdp_type: SdpType::Answer, sdp, parsed: None })
    }

    /// Accepts an offer at the session level: parses it, derives both
    /// sides' credentials, builds the answer, and returns it together
    /// with the candidate that binds the exchange, for the caller to
    /// register under the candidate's username.
    pub fn accept_pending_offer(
        &self,
        endpoint_id: u64,
        offer: RTCSessionDescription,
        expired_millis: u64,
    ) -> (r: Result<(RTCSessionDescription, Candidate), Error>)
        requires
            self.wf(),
        ensures
            accept_offer_outcome(self, endpoint_id, offer@.sdp, expired_millis, r),
    {
        let parsed = match offer.unmarshal() {
            Ok(p) => p,
            Err(e) => {
                return Err(e);
            },
        };
        let remote_conn_cred = match ConnectionCredentials::from_sdp(&parsed) {
            Ok(c) => c,
            Err(e) => {
                return Err(e);
            },
        };
        let local_conn_cred = ConnectionCredentials::new(
            &self.certificate,
            remote_conn_cred.dtls_role,
        );
        let answer = match self.create_pending_answer(&parsed, &local_conn_cred) {
            Ok(a) => a,
            Err(e) => {
                return Err(e);
            },
        };
        let answer_copy = RTCSessionDescription {
            sdp_type: SdpType::Answer,
            sdp: answer.sdp.clone(),
            parsed: None,
        };
        let offer_stored = RTCSessionDescription {
            sdp_type: offer.sdp_type,
            sdp: offer.sdp,
            parsed: Some(parsed),
        };
        let candidate = Candidate::new(
            self.session_id,
            endpoint_id,
            remote_conn_cred,
            local_conn_cred,
            offer_stored,
            answer,
            expired_millis,
        );
        Ok((answer_copy, candidate))
    }
}

/// What accepting an offer returns: the error of the first failing stage
/// — parse, remote credentials, matching — or an answer and a candidate
/// that agree: the candidate stores the parsed offer and the answer, its
/// local credentials are fresh with the complementary DTLS role, and the
/// answer's text is the session's serialization of the matched sections
/// under those credentials.
pub open spec fn accept_offer_outcome(
    s: &Session,
    endpoint_id: u64,
    offer_sdp: Seq<char>,
    expired_millis: u64,
    r: Result<(RTCSessionDescription, Candidate), Error>,
) -> bool {
    match sdp_parse_spec(offer_sdp) {
        None => r matches Err(e) && e == Error::SdpParse,
        Some(p) => match (ice_ufrag_of(p), ice_pwd_of(p)) {
            (Some(_), Some(_)) => match matched_sections(p.media, s.transceivers_view(), false) {
                Ok(secs) => r matches Ok((answer, cand)) && {
                    &&& answer@.sdp_type == SdpType::Answer
                    &&& answer@.parsed is None
                    &&& cand@.session_id == s.session_id
                    &&& cand@.endpoint_id == endpoint_id
                    &&& cand@.expired_millis == expired_millis
                    &&& cand@.remote_conn_cred.ice_ufrag == ice_ufrag_of(p)->Some_0
                    &&& cand@.remote_conn_cred.ice_pwd == ice_pwd_of(p)->Some_0
                    &&& cand@.remote_conn_cred.dtls_role == setup_role_of(p)
                    &&& cand@.local_conn_cred.ice_ufrag.len() == 16
                    &&& cand@.local_conn_cred.ice_pwd.len() == 32
                    &&& cand@.local_conn_cred.dtls_role == dtls_complement(setup_role_of(p))
                    &&& cand@.local_conn_cred.fingerprints == s.certificate@.fingerprints
                    &&& cand@.remote_description.sdp == offer_sdp
                    &&& cand@.remote_description.parsed == Some(p)
                    &&& cand@.local_description.sdp == answer@.sdp
                    &&& cand@.local_description.sdp_type == SdpType::Answer
                    &&& answer@.sdp == s.answer_text_for(
                        secs,
                        cand@.local_conn_cred.ice_ufrag,
                        cand@.local_conn_cred.ice_pwd,
                        cand@.local_conn_cred.dtls_role,
                    )
                },
                Err(e) => r matches Err(e2) && e2 == e,
            },
            _ => r matches Err(e) && e == Error::MissingIceCredentials,
        },
    }
}

} // verus!
