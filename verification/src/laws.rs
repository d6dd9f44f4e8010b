use vstd::prelude::*;

use crate::candidate::Candidate;
use crate::credentials::DtlsRole;
use crate::description::{is_application, kind_of, mid_value, peer_direction, MediaDescView};
use crate::session::{
    data_section_view, find_transceiver, match_media, matched_section_view, matched_sections,
    Session,
};
use crate::states::ServerStates;
use crate::transceiver::{CodecType, Direction, MediaSectionView, RtpTransceiverView};

verus! {

/// Whether a media description is mirrored in the answer: it carries a
/// non-empty mid and is either an application line or one of recognized
/// kind and direction.
pub open spec fn answerable(m: MediaDescView) -> bool {
    &&& mid_value(m) is Some
    &&& mid_value(m)->Some_0.len() > 0
    &&& (is_application(m) || (kind_of(m) != CodecType::Unspecified && peer_direction(m)
        != Direction::Unspecified))
}

/// The mids of the answerable media descriptions, in offer order.
pub open spec fn answered_mids(media: Seq<MediaDescView>) -> Seq<Seq<char>>
    decreases media.len(),
{
    if media.len() == 0 {
        Seq::empty()
    } else {
        (if answerable(media[0]) {
            seq![mid_value(media[0])->Some_0]
        } else {
            Seq::empty()
        }) + answered_mids(media.drop_first())
    }
}

/// Determinism: the answer text is a function of the parsed offer, the
/// local transceiver set, the local credentials and the session's
/// certificate and address alone — two answers generated from the same
/// inputs are byte-identical, the origin line included, since the
/// session's own id serves as the origin id.
pub proof fn lemma_answer_determinism(
    s: &Session,
    media: Seq<MediaDescView>,
    ts: Seq<RtpTransceiverView>,
    include_unmatched: bool,
    ufrag: Seq<char>,
    pwd: Seq<char>,
    role: DtlsRole,
    r1: Seq<char>,
    r2: Seq<char>,
)
    requires
        matched_sections(media, ts, include_unmatched) is Ok,
        r1 == s.answer_text_for(
            matched_sections(media, ts, include_unmatched)->Ok_0,
            ufrag,
            pwd,
            role,
        ),
        r2 == s.answer_text_for(
            matched_sections(media, ts, include_unmatched)->Ok_0,
            ufrag,
            pwd,
            role,
        ),
    ensures
        r1 == r2,
{
}

/// Order preservation and mid completeness: when matching succeeds, the
/// produced sections carry, in the offer's order, exactly the mids of
/// the answerable media descriptions — every answerable line is
/// mirrored once, at its original relative position, and nothing else
/// appears.
pub proof fn lemma_order_preservation(
    media: Seq<MediaDescView>,
    ts: Seq<RtpTransceiverView>,
    include_unmatched: bool,
)
    requires
        match_media(media, ts, include_unmatched) is Ok,
    ensures
        match_media(media, ts, include_unmatched)->Ok_0.0.map_values(
            |s: MediaSectionView| s.id,
        ) == answered_mids(media),
    decreases media.len(),
{
    if media.len() == 0 {
        assert(match_media(media, ts, include_unmatched)->Ok_0.0.map_values(
            |s: MediaSectionView| s.id,
        ) =~= answered_mids(media));
    } else {
        let m = media[0];
        match mid_value(m) {
            None => {},
            Some(mid) => {
                if mid.len() == 0 {
                } else if is_application(m) {
                    assert(match_media(media.drop_first(), ts, include_unmatched) is Ok);
                    lemma_order_preservation(media.drop_first(), ts, include_unmatched);
                    let rest = match_media(media.drop_first(), ts, include_unmatched)->Ok_0.0;
                    assert((seq![data_section_view(mid)] + rest).map_values(
                        |s: MediaSectionView| s.id,
                    ) =~= seq![mid] + rest.map_values(|s: MediaSectionView| s.id));
                    assert(match_media(media, ts, include_unmatched)->Ok_0.0.map_values(
                        |s: MediaSectionView| s.id,
                    ) =~= answered_mids(media));
                } else if kind_of(m) == CodecType::Unspecified || peer_direction(m)
                    == Direction::Unspecified {
                    lemma_order_preservation(media.drop_first(), ts, include_unmatched);
                    assert(answered_mids(media) =~= answered_mids(media.drop_first()));
                } else {
                    match find_transceiver(ts, mid) {
                        Some(i) => {
                            assert(match_media(
                                media.drop_first(),
                                ts.remove(i),
                                include_unmatched,
                            ) is Ok);
                            lemma_order_preservation(
                                media.drop_first(),
                                ts.remove(i),
                                include_unmatched,
                            );
                            let sec = matched_section_view(
                                mid,
                                ts[i],
                                crate::description::rids_of(m),
                                if include_unmatched {
                                    None
                                } else {
                                    Some(peer_direction(m))
                                },
                            );
                            let rest = match_media(
                                media.drop_first(),
                                ts.remove(i),
                                include_unmatched,
                            )->Ok_0.0;
                            assert((seq![sec] + rest).map_values(|s: MediaSectionView| s.id)
                                =~= seq![mid] + rest.map_values(|s: MediaSectionView| s.id));
                            assert(match_media(media, ts, include_unmatched)->Ok_0.0.map_values(
                                |s: MediaSectionView| s.id,
                            ) =~= answered_mids(media));
                        },
                        None => {},
                    }
                }
            },
        }
    }
}

proof fn lemma_answered_mids_contains(media: Seq<MediaDescView>, i: int)
    requires
        0 <= i < media.len(),
        answerable(media[i]),
    ensures
        answered_mids(media).contains(mid_value(media[i])->Some_0),
    decreases i,
{
    if i == 0 {
        assert(answered_mids(media)[0] == mid_value(media[0])->Some_0);
    } else {
        assert(media.drop_first()[i - 1] == media[i]);
        lemma_answered_mids_contains(media.drop_first(), i - 1);
        let rest = answered_mids(media.drop_first());
        let head: Seq<Seq<char>> = if answerable(media[0]) {
            seq![mid_value(media[0])->Some_0]
        } else {
            Seq::empty()
        };
        let k = choose|k: int| 0 <= k < rest.len() && rest[k] == mid_value(media[i])->Some_0;
        assert(answered_mids(media)[head.len() + k] == mid_value(media[i])->Some_0);
    }
}

/// Mid completeness, pointwise: when matching succeeds, every media
/// description with a non-empty mid and a recognized kind and direction
/// — or the application type — has a produced section carrying that
/// same mid.
pub proof fn lemma_mid_completeness(
    media: Seq<MediaDescView>,
    ts: Seq<RtpTransceiverView>,
    include_unmatched: bool,
    i: int,
)
    requires
        match_media(media, ts, include_unmatched) is Ok,
        0 <= i < media.len(),
        answerable(media[i]),
    ensures
        exists|j: int|
            0 <= j < match_media(media, ts, include_unmatched)->Ok_0.0.len() && match_media(
                media,
                ts,
                include_unmatched,
            )->Ok_0.0[j].id == mid_value(media[i])->Some_0,
{
    lemma_order_preservation(media, ts, include_unmatched);
    lemma_answered_mids_contains(media, i);
    let secs = match_media(media, ts, include_unmatched)->Ok_0.0;
    let ids = secs.map_values(|s: MediaSectionView| s.id);
    let k = choose|k: int|
        0 <= k < answered_mids(media).len() && answered_mids(media)[k] == mid_value(
            media[i],
        )->Some_0;
    assert(ids[k] == mid_value(media[i])->Some_0);
    assert(secs[k].id == mid_value(media[i])->Some_0);
}

/// Fail-closed on a missing mid: an offer with any media description
/// whose mid is absent or empty cannot be answered — matching reports
/// an error and no section list exists.
pub proof fn lemma_fail_closed_missing_mid(
    media: Seq<MediaDescView>,
    ts: Seq<RtpTransceiverView>,
    include_unmatched: bool,
    i: int,
)
    requires
        0 <= i < media.len(),
        mid_value(media[i]) is None || mid_value(media[i])->Some_0.len() == 0,
    ensures
        match_media(media, ts, include_unmatched) is Err,
        matched_sections(media, ts, include_unmatched) is Err,
    decreases i,
{
    if i > 0 {
        let m = media[0];
        match mid_value(m) {
            None => {},
            Some(mid) => {
                if mid.len() == 0 {
                } else {
                    assert(media.drop_first()[i - 1] == media[i]);
                    if is_application(m) {
                        lemma_fail_closed_missing_mid(
                            media.drop_first(),
                            ts,
                            include_unmatched,
                            i - 1,
                        );
                    } else if kind_of(m) == CodecType::Unspecified || peer_direction(m)
                        == Direction::Unspecified {
                        lemma_fail_closed_missing_mid(
                            media.drop_first(),
                            ts,
                            include_unmatched,
                            i - 1,
                        );
                    } else {
                        match find_transceiver(ts, mid) {
                            Some(k) => {
                                lemma_fail_closed_missing_mid(
                                    media.drop_first(),
                                    ts.remove(k),
                                    include_unmatched,
                                    i - 1,
                                );
                            },
                            None => {},
                        }
                    }
                }
            },
        }
    }
}

proof fn lemma_find_transceiver_absent(ts: Seq<RtpTransceiverView>, mid: Seq<char>)
    requires
        forall|j: int| 0 <= j < ts.len() ==> ts[j].mid != mid,
    ensures
        find_transceiver(ts, mid) is None,
    decreases ts.len(),
{
    if ts.len() > 0 {
        assert forall|j: int| 0 <= j < ts.drop_first().len() implies ts.drop_first()[j].mid
            != mid by {
            assert(ts.drop_first()[j] == ts[j + 1]);
        }
        lemma_find_transceiver_absent(ts.drop_first(), mid);
    }
}

/// Fail-closed on an unmatched mid: an offer naming a mid for which no
/// local transceiver exists — on a media line of recognized kind and
/// direction — cannot be answered: matching reports an error.
pub proof fn lemma_fail_closed_unmatched_mid(
    media: Seq<MediaDescView>,
    ts: Seq<RtpTransceiverView>,
    include_unmatched: bool,
    i: int,
)
    requires
        0 <= i < media.len(),
        mid_value(media[i]) is Some,
        mid_value(media[i])->Some_0.len() > 0,
        !is_application(media[i]),
        kind_of(media[i]) != CodecType::Unspecified,
        peer_direction(media[i]) != Direction::Unspecified,
        forall|j: int| 0 <= j < ts.len() ==> ts[j].mid != mid_value(media[i])->Some_0,
    ensures
        match_media(media, ts, include_unmatched) is Err,
        matched_sections(media, ts, include_unmatched) is Err,
    decreases i,
{
    let target = mid_value(media[i])->Some_0;
    if i == 0 {
        lemma_find_transceiver_absent(ts, target);
    } else {
        let m = media[0];
        match mid_value(m) {
            None => {},
            Some(mid) => {
                if mid.len() == 0 {
                } else {
                    assert(media.drop_first()[i - 1] == media[i]);
                    if is_application(m) {
                        lemma_fail_closed_unmatched_mid(
                            media.drop_first(),
                            ts,
                            include_unmatched,
                            i - 1,
                        );
                    } else if kind_of(m) == CodecType::Unspecified || peer_direction(m)
                        == Direction::Unspecified {
                        lemma_fail_closed_unmatched_mid(
                            media.drop_first(),
                            ts,
                            include_unmatched,
                            i - 1,
                        );
                    } else {
                        match find_transceiver(ts, mid) {
                            Some(k) => {
                                crate::session::lemma_find_transceiver_in_range(ts, mid);
                                assert forall|j: int|
                                    0 <= j < ts.remove(k).len() implies ts.remove(k)[j].mid
                                    != target by {
                                    if j < k {
                                        assert(ts.remove(k)[j] == ts[j]);
                                    } else {
                                        assert(ts.remove(k)[j] == ts[j + 1]);
                                    }
                                }
                                lemma_fail_closed_unmatched_mid(
                                    media.drop_first(),
                                    ts.remove(k),
                                    include_unmatched,
                                    i - 1,
                                );
                            },
                            None => {},
                        }
                    }
                }
            },
        }
    }
}

/// Idempotent session reuse: two offer acceptances against the same
/// session id leave the registry with exactly the sessions it started
/// with plus that one id — the second call reuses the session the first
/// one created.
pub proof fn lemma_session_reuse(
    s0: &ServerStates,
    s1: &ServerStates,
    s2: &ServerStates,
    session_id: u64,
)
    requires
        s1.sessions@.dom() == s0.sessions@.dom().insert(session_id),
        s2.sessions@.dom() == s1.sessions@.dom().insert(session_id),
    ensures
        s2.sessions@.dom() == s0.sessions@.dom().insert(session_id),
        s0.sessions@.dom().contains(session_id) ==> s2.sessions@.dom() == s0.sessions@.dom(),
{
    assert(s0.sessions@.dom().insert(session_id).insert(session_id) =~= s0.sessions@.dom().insert(
        session_id,
    ));
    if s0.sessions@.dom().contains(session_id) {
        assert(s0.sessions@.dom().insert(session_id) =~= s0.sessions@.dom());
    }
}

/// Username uniqueness: registering two candidates under the same
/// username replaces the stored entry rather than duplicating it — the
/// table holds the second candidate and its key set, hence its size,
/// is unchanged by the second registration.
pub proof fn lemma_username_collision_replaces(
    m: Map<Seq<char>, Candidate>,
    u: Seq<char>,
    a: Candidate,
    b: Candidate,
)
    ensures
        m.insert(u, a).insert(u, b) == m.insert(u, b),
        m.insert(u, a).insert(u, b).dom() == m.insert(u, a).dom(),
        m.insert(u, a).insert(u, b)[u] == b,
{
    assert(m.insert(u, a).insert(u, b) =~= m.insert(u, b));
    assert(m.insert(u, a).insert(u, b).dom() =~= m.insert(u, a).dom());
}

} // verus!
