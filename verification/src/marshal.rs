use vstd::prelude::*;

use crate::credentials::DtlsRole;
use crate::transceiver::{
    reverse_direction, Codec, CodecType, CodecView, Direction, MediaSection, MediaSectionView,
};

verus! {

/// The decimal digit character of a value below ten.
pub open spec fn dec_digit(n: nat) -> char {
    if n == 0 {
        '0'
    } else if n == 1 {
        '1'
    } else if n == 2 {
        '2'
    } else if n == 3 {
        '3'
    } else if n == 4 {
        '4'
    } else if n == 5 {
        '5'
    } else if n == 6 {
        '6'
    } else if n == 7 {
        '7'
    } else if n == 8 {
        '8'
    } else {
        '9'
    }
}

/// The decimal text of a number, most significant digit first, without
/// leading zeros (a single `0` for zero).
pub open spec fn dec_str(n: nat) -> Seq<char>
    decreases n,
{
    if n < 10 {
        seq![dec_digit(n)]
    } else {
        dec_str(n / 10).push(dec_digit(n % 10))
    }
}

fn digit_str(d: u64) -> (r: &'static str)
    requires
        d < 10,
    ensures
        r@ == seq![dec_digit(d as nat)],
{
    proof {
        reveal_strlit("0");
        reveal_strlit("1");
        reveal_strlit("2");
        reveal_strlit("3");
        reveal_strlit("4");
        reveal_strlit("5");
        reveal_strlit("6");
        reveal_strlit("7");
        reveal_strlit("8");
        reveal_strlit("9");
    }
    let r: &'static str = if d == 0 {
        "0"
    } else if d == 1 {
        "1"
    } else if d == 2 {
        "2"
    } else if d == 3 {
        "3"
    } else if d == 4 {
        "4"
    } else if d == 5 {
        "5"
    } else if d == 6 {
        "6"
    } else if d == 7 {
        "7"
    } else if d == 8 {
        "8"
    } else {
        "9"
    };
    proof {
        assert(r@ =~= seq![dec_digit(d as nat)]);
    }
    r
}

/// Renders a number as decimal text.
pub fn u64_to_string(n: u64) -> (r: String)
    ensures
        r@ == dec_str(n as nat),
    decreases n,
{
    if n < 10 {
        let mut s = String::new();
        s.append(digit_str(n));
        proof {
            assert(s@ =~= dec_str(n as nat));
        }
        s
    } else {
        let mut s = u64_to_string(n / 10);
        s.append(digit_str(n % 10));
        proof {
            assert((n / 10) as nat == (n as nat) / 10);
            assert((n % 10) as nat == (n as nat) % 10);
            assert(s@ =~= dec_str(n as nat));
        }
        s
    }
}

/// The media-type name of a kind in an `m=` line.
pub open spec fn kind_text(k: CodecType) -> Seq<char> {
    match k {
        CodecType::Audio => "audio"@,
        CodecType::Video => "video"@,
        CodecType::Unspecified => "unknown"@,
    }
}

fn kind_str(k: CodecType) -> (r: &'static str)
    ensures
        r@ == kind_text(k),
{
    match k {
        CodecType::Audio => "audio",
        CodecType::Video => "video",
        CodecType::Unspecified => "unknown",
    }
}

/// The `setup` attribute value of a DTLS role.
pub open spec fn role_text(r: DtlsRole) -> Seq<char> {
    match r {
        DtlsRole::Client => "active"@,
        DtlsRole::Server => "passive"@,
        DtlsRole::Auto => "actpass"@,
    }
}

fn role_str(r: DtlsRole) -> (s: &'static str)
    ensures
        s@ == role_text(r),
{
    match r {
        DtlsRole::Client => "active",
        DtlsRole::Server => "passive",
        DtlsRole::Auto => "actpass",
    }
}

/// The attribute name of a direction; an unspecified direction is written
/// as the `sendrecv` default.
pub open spec fn direction_text(d: Direction) -> Seq<char> {
    match d {
        Direction::Sendrecv => "sendrecv"@,
        Direction::Sendonly => "sendonly"@,
        Direction::Recvonly => "recvonly"@,
        Direction::Inactive => "inactive"@,
        Direction::Unspecified => "sendrecv"@,
    }
}

fn direction_str(d: Direction) -> (s: &'static str)
    ensures
        s@ == direction_text(d),
{
    match d {
        Direction::Sendrecv => "sendrecv",
        Direction::Sendonly => "sendonly",
        Direction::Recvonly => "recvonly",
        Direction::Inactive => "inactive",
        Direction::Unspecified => "sendrecv",
    }
}

/// The direction an answer writes into a section: the mirror of what the
/// offer declared; for a fresh section, the transceiver's own direction.
pub open spec fn section_direction(s: MediaSectionView) -> Direction {
    match s.offered_direction {
        Some(d) => reverse_direction(d),
        None => if s.transceivers.len() > 0 {
            s.transceivers[0].direction
        } else {
            Direction::Inactive
        },
    }
}

/// The codecs a section carries: those of its transceiver.
pub open spec fn section_codecs(s: MediaSectionView) -> Seq<CodecView> {
    if s.transceivers.len() > 0 {
        s.transceivers[0].codecs
    } else {
        Seq::empty()
    }
}

/// The media kind a section carries: that of its transceiver.
pub open spec fn section_kind(s: MediaSectionView) -> CodecType {
    if s.transceivers.len() > 0 {
        s.transceivers[0].kind
    } else {
        CodecType::Unspecified
    }
}

/// The format list of an `m=` line: one space-led payload type per codec.
pub open spec fn payload_list_text(cs: Seq<CodecView>) -> Seq<char>
    decreases cs.len(),
{
    if cs.len() == 0 {
        Seq::empty()
    } else {
        " "@ + dec_str(cs[0].payload_type as nat) + payload_list_text(cs.drop_first())
    }
}

/// One `rtpmap` attribute line per codec.
pub open spec fn rtpmap_lines_text(cs: Seq<CodecView>) -> Seq<char>
    decreases cs.len(),
{
    if cs.len() == 0 {
        Seq::empty()
    } else {
        "a=rtpmap:"@ + dec_str(cs[0].payload_type as nat) + " "@ + cs[0].encoding + "\r\n"@
            + rtpmap_lines_text(cs.drop_first())
    }
}

/// One `rid` attribute line per simulcast restriction identifier.
pub open spec fn rid_lines_text(rids: Seq<Seq<char>>) -> Seq<char>
    decreases rids.len(),
{
    if rids.len() == 0 {
        Seq::empty()
    } else {
        "a=rid:"@ + rids[0] + " recv\r\n"@ + rid_lines_text(rids.drop_first())
    }
}

/// The `m=` line of a section.
pub open spec fn media_line_text(s: MediaSectionView) -> Seq<char> {
    if s.data {
        "m=application 9 UDP/DTLS/SCTP webrtc-datachannel\r\n"@
    } else {
        "m="@ + kind_text(section_kind(s)) + " 9 UDP/TLS/RTP/SAVPF"@ + payload_list_text(
            section_codecs(s),
        ) + "\r\n"@
    }
}

/// The fixed attribute block of a section: connection line, DTLS setup,
/// mid, and the local ICE credentials.
pub open spec fn section_fixed_text(
    s: MediaSectionView,
    ufrag: Seq<char>,
    pwd: Seq<char>,
    role: DtlsRole,
    addr: Seq<char>,
) -> Seq<char> {
    "c=IN IP4 "@ + addr + "\r\n"@ + "a=setup:"@ + role_text(role) + "\r\n"@ + "a=mid:"@ + s.id
        + "\r\n"@ + "a=ice-ufrag:"@ + ufrag + "\r\n"@ + "a=ice-pwd:"@ + pwd + "\r\n"@
}

/// The closing block of a section: the SCTP port for a data section, the
/// codec lines, mirrored direction and `rtcp-mux` for a media one.
pub open spec fn section_tail_text(s: MediaSectionView) -> Seq<char> {
    if s.data {
        "a=sctp-port:5000\r\n"@
    } else {
        rtpmap_lines_text(section_codecs(s)) + "a="@ + direction_text(section_direction(s))
            + "\r\n"@ + "a=rtcp-mux\r\n"@
    }
}

/// The full text of one media section of the answer.
pub open spec fn section_text(
    s: MediaSectionView,
    ufrag: Seq<char>,
    pwd: Seq<char>,
    role: DtlsRole,
    addr: Seq<char>,
) -> Seq<char> {
    media_line_text(s) + section_fixed_text(s, ufrag, pwd, role, addr) + rid_lines_text(s.rid_map)
        + section_tail_text(s)
}

/// The mid list of the `BUNDLE` group line, one space-led mid per section.
pub open spec fn bundle_ids_text(ss: Seq<MediaSectionView>) -> Seq<char>
    decreases ss.len(),
{
    if ss.len() == 0 {
        Seq::empty()
    } else {
        " "@ + ss[0].id + bundle_ids_text(ss.drop_first())
    }
}

/// The concatenated text of all media sections.
pub open spec fn sections_text(
    ss: Seq<MediaSectionView>,
    ufrag: Seq<char>,
    pwd: Seq<char>,
    role: DtlsRole,
    addr: Seq<char>,
) -> Seq<char>
    decreases ss.len(),
{
    if ss.len() == 0 {
        Seq::empty()
    } else {
        section_text(ss[0], ufrag, pwd, role, addr) + sections_text(
            ss.drop_first(),
            ufrag,
            pwd,
            role,
            addr,
        )
    }
}

/// The complete answer text: the fixed session header, the origin line
/// carrying the given session id, this ice-lite side's fingerprint, the
/// `BUNDLE` group over all section mids, and the media sections in order.
pub open spec fn answer_sdp_text(
    ss: Seq<MediaSectionView>,
    ufrag: Seq<char>,
    pwd: Seq<char>,
    role: DtlsRole,
    fp_alg: Seq<char>,
    fp_val: Seq<char>,
    addr: Seq<char>,
    sid: u64,
) -> Seq<char> {
    "v=0\r\n"@ + "o=- "@ + dec_str(sid as nat) + " 2 IN IP4 0.0.0.0\r\n"@ + "s=-\r\n"@
        + "t=0 0\r\n"@ + "a=ice-lite\r\n"@ + "a=fingerprint:"@ + fp_alg + " "@ + fp_val + "\r\n"@
        + "a=group:BUNDLE"@ + bundle_ids_text(ss) + "\r\n"@ + sections_text(
        ss,
        ufrag,
        pwd,
        role,
        addr,
    )
}

fn payload_list(cs: &Vec<Codec>) -> (r: String)
    ensures
        r@ == payload_list_text(cs@.map_values(|c: Codec| c@)),
{
    let ghost vs = cs@.map_values(|c: Codec| c@);
    let mut s = String::new();
    let mut i: usize = 0;
    proof {
        assert(vs.skip(0) =~= vs);
    }
    while i < cs.len()
        invariant
            0 <= i <= cs.len(),
            vs == cs@.map_values(|c: Codec| c@),
            vs.len() == cs@.len(),
            payload_list_text(vs) == s@ + payload_list_text(vs.skip(i as int)),
        decreases cs.len() - i,
    {
        proof {
            assert(vs.skip(i as int)[0] == vs[i as int]);
            assert(vs.skip(i as int).drop_first() =~= vs.skip(i as int + 1));
        }
        s.append(" ");
        let d = u64_to_string(cs[i].payload_type as u64);
        s.append(d.as_str());
        proof {
            assert(payload_list_text(vs) =~= s@ + payload_list_text(vs.skip(i as int + 1)));
        }
        i += 1;
    }
    proof {
        assert(vs.skip(i as int).len() == 0);
        assert(payload_list_text(vs) =~= s@);
    }
    s
}

fn rtpmap_lines(cs: &Vec<Codec>) -> (r: String)
    ensures
        r@ == rtpmap_lines_text(cs@.map_values(|c: Codec| c@)),
{
    let ghost vs = cs@.map_values(|c: Codec| c@);
    let mut s = String::new();
    let mut i: usize = 0;
    proof {
        assert(vs.skip(0) =~= vs);
    }
    while i < cs.len()
        invariant
            0 <= i <= cs.len(),
            vs == cs@.map_values(|c: Codec| c@),
            vs.len() == cs@.len(),
            rtpmap_lines_text(vs) == s@ + rtpmap_lines_text(vs.skip(i as int)),
        decreases cs.len() - i,
    {
        proof {
            assert(vs.skip(i as int)[0] == vs[i as int]);
            assert(vs.skip(i as int).drop_first() =~= vs.skip(i as int + 1));
        }
        s.append("a=rtpmap:");
        let d = u64_to_string(cs[i].payload_type as u64);
        s.append(d.as_str());
        s.append(" ");
        s.append(cs[i].encoding.as_str());
        s.append("\r\n");
        proof {
            assert(rtpmap_lines_text(vs) =~= s@ + rtpmap_lines_text(vs.skip(i as int + 1)));
        }
        i += 1;
    }
    proof {
        assert(vs.skip(i as int).len() == 0);
        assert(rtpmap_lines_text(vs) =~= s@);
    }
    s
}

fn rid_lines(rids: &Vec<String>) -> (r: String)
    ensures
        r@ == rid_lines_text(rids@.map_values(|x: String| x@)),
{
    let ghost vs = rids@.map_values(|x: String| x@);
    let mut s = String::new();
    let mut i: usize = 0;
    proof {
        assert(vs.skip(0) =~= vs);
    }
    while i < rids.len()
        invariant
            0 <= i <= rids.len(),
            vs == rids@.map_values(|x: String| x@),
            vs.len() == rids@.len(),
            rid_lines_text(vs) == s@ + rid_lines_text(vs.skip(i as int)),
        decreases rids.len() - i,
    {
        proof {
            assert(vs.skip(i as int)[0] == vs[i as int]);
            assert(vs.skip(i as int).drop_first() =~= vs.skip(i as int + 1));
        }
        s.append("a=rid:");
        s.append(rids[i].as_str());
        s.append(" recv\r\n");
        proof {
            assert(rid_lines_text(vs) =~= s@ + rid_lines_text(vs.skip(i as int + 1)));
        }
        i += 1;
    }
    proof {
        assert(vs.skip(i as int).len() == 0);
        assert(rid_lines_text(vs) =~= s@);
    }
    s
}

fn bundle_ids(ss: &Vec<MediaSection>) -> (r: String)
    ensures
        r@ == bundle_ids_text(ss@.map_values(|x: MediaSection| x@)),
{
    let ghost vs = ss@.map_values(|x: MediaSection| x@);
    let mut s = String::new();
    let mut i: usize = 0;
    proof {
        assert(vs.skip(0) =~= vs);
    }
    while i < ss.len()
        invariant
            0 <= i <= ss.len(),
            vs == ss@.map_values(|x: MediaSection| x@),
            vs.len() == ss@.len(),
            bundle_ids_text(vs) == s@ + bundle_ids_text(vs.skip(i as int)),
        decreases ss.len() - i,
    {
        proof {
            assert(vs.skip(i as int)[0] == vs[i as int]);
            assert(vs.skip(i as int).drop_first() =~= vs.skip(i as int + 1));
        }
        s.append(" ");
        s.append(ss[i].id.as_str());
        proof {
            assert(bundle_ids_text(vs) =~= s@ + bundle_ids_text(vs.skip(i as int + 1)));
        }
        i += 1;
    }
    proof {
        assert(vs.skip(i as int).len() == 0);
        assert(bundle_ids_text(vs) =~= s@);
    }
    s
}

fn media_line(s: &MediaSection) -> (r: String)
    ensures
        r@ == media_line_text(s@),
{
    let mut out = String::new();
    if s.data {
        out.append("m=application 9 UDP/DTLS/SCTP webrtc-datachannel\r\n");
        proof {
            assert(out@ =~= media_line_text(s@));
        }
    } else {
        out.append("m=");
        let k = if s.transceivers.len() > 0 {
            s.transceivers[0].kind
        } else {
            CodecType::Unspecified
        };
        out.append(kind_str(k));
        out.append(" 9 UDP/TLS/RTP/SAVPF");
        if s.transceivers.len() > 0 {
            let pl = payload_list(&s.transceivers[0].codecs);
            out.append(pl.as_str());
        } else {
            proof {
                assert(payload_list_text(section_codecs(s@)) =~= Seq::<char>::empty());
            }
        }
        out.append("\r\n");
        proof {
            assert(out@ =~= media_line_text(s@));
        }
    }
    out
}

#[verifier::rlimit(50)]
fn section_fixed(
    s: &MediaSection,
    ufrag: &String,
    pwd: &String,
    role: DtlsRole,
    addr: &String,
) -> (r: String)
    ensures
        r@ == section_fixed_text(s@, ufrag@, pwd@, role, addr@),
{
    let mut out = String::new();
    out.append("c=IN IP4 ");
    out.append(addr.as_str());
    out.append("\r\n");
    out.append("a=setup:");
    out.append(role_str(role));
    out.append("\r\n");
    out.append("a=mid:");
    out.append(s.id.as_str());
    out.append("\r\n");
    out.append("a=ice-ufrag:");
    out.append(ufrag.as_str());
    out.append("\r\n");
    out.append("a=ice-pwd:");
    out.append(pwd.as_str());
    out.append("\r\n");
    proof {
        assert(out@ =~= section_fixed_text(s@, ufrag@, pwd@, role, addr@));
    }
    out
}

fn section_tail(s: &MediaSection) -> (r: String)
    ensures
        r@ == section_tail_text(s@),
{
    let mut out = String::new();
    if s.data {
        out.append("a=sctp-port:5000\r\n");
        proof {
            assert(out@ =~= section_tail_text(s@));
        }
    } else {
        if s.transceivers.len() > 0 {
            let rm = rtpmap_lines(&s.transceivers[0].codecs);
            out.append(rm.as_str());
        } else {
            proof {
                assert(rtpmap_lines_text(section_codecs(s@)) =~= Seq::<char>::empty());
            }
        }
        out.append("a=");
        let d = match s.offered_direction {
            Some(d) => d.reverse(),
            None => if s.transceivers.len() > 0 {
                s.transceivers[0].direction
            } else {
                Direction::Inactive
            },
        };
        out.append(direction_str(d));
        out.append("\r\n");
        out.append("a=rtcp-mux\r\n");
        proof {
            assert(out@ =~= section_tail_text(s@));
        }
    }
    out
}

fn append_section(
    out: &mut String,
    s: &MediaSection,
    ufrag: &String,
    pwd: &String,
    role: DtlsRole,
    addr: &String,
)
    ensures
        final(out)@ == old(out)@ + section_text(s@, ufrag@, pwd@, role, addr@),
{
    let m = media_line(s);
    out.append(m.as_str());
    let f = section_fixed(s, ufrag, pwd, role, addr);
    out.append(f.as_str());
    let rl = rid_lines(&s.rid_map);
    out.append(rl.as_str());
    let t = section_tail(s);
    out.append(t.as_str());
    proof {
        assert(out@ =~= old(out)@ + section_text(s@, ufrag@, pwd@, role, addr@));
    }
}

/// Serializes the answer: the session header and every media section, in
/// order, exactly as [`answer_sdp_text`] lays it out.
pub fn marshal_answer(
    sections: &Vec<MediaSection>,
    ufrag: &String,
    pwd: &String,
    role: DtlsRole,
    fp_alg: &String,
    fp_val: &String,
    addr: &String,
    sid: u64,
) -> (r: String)
    ensures
        r@ == answer_sdp_text(
            sections@.map_values(|x: MediaSection| x@),
            ufrag@,
            pwd@,
            role,
            fp_alg@,
            fp_val@,
            addr@,
            sid,
        ),
{
    let ghost vs = sections@.map_values(|x: MediaSection| x@);
    let mut out = String::new();
    out.append("v=0\r\n");
    out.append("o=- ");
    let sid_text = u64_to_string(sid);
    out.append(sid_text.as_str());
    out.append(" 2 IN IP4 0.0.0.0\r\n");
    out.append("s=-\r\n");
    out.append("t=0 0\r\n");
    out.append("a=ice-lite\r\n");
    out.append("a=fingerprint:");
    out.append(fp_alg.as_str());
    out.append(" ");
    out.append(fp_val.as_str());
    out.append("\r\n");
    out.append("a=group:BUNDLE");
    let bundle = bundle_ids(sections);
    out.append(bundle.as_str());
    out.append("\r\n");
    let ghost header = out@;
    proof {
        assert(vs.skip(0) =~= vs);
        assert(header + sections_text(vs.skip(0), ufrag@, pwd@, role, addr@) =~= header
            + sections_text(vs, ufrag@, pwd@, role, addr@));
    }
    let mut i: usize = 0;
    while i < sections.len()
        invariant
            0 <= i <= sections.len(),
            vs == sections@.map_values(|x: MediaSection| x@),
            vs.len() == sections@.len(),
            header + sections_text(vs, ufrag@, pwd@, role, addr@) == out@ + sections_text(
                vs.skip(i as int),
                ufrag@,
                pwd@,
                role,
                addr@,
            ),
        decreases sections.len() - i,
    {
        proof {
            assert(vs.skip(i as int)[0] == vs[i as int]);
            assert(vs.skip(i as int).drop_first() =~= vs.skip(i as int + 1));
        }
        append_section(&mut out, &sections[i], ufrag, pwd, role, addr);
        proof {
            assert(header + sections_text(vs, ufrag@, pwd@, role, addr@) =~= out@ + sections_text(
                vs.skip(i as int + 1),
                ufrag@,
                pwd@,
                role,
                addr@,
            ));
        }
        i += 1;
    }
    proof {
        assert(vs.skip(i as int).len() == 0);
        assert(header + sections_text(vs, ufrag@, pwd@, role, addr@) =~= out@);
        assert(header =~= "v=0\r\n"@ + "o=- "@ + dec_str(sid as nat) + " 2 IN IP4 0.0.0.0\r\n"@
            + "s=-\r\n"@ + "t=0 0\r\n"@ + "a=ice-lite\r\n"@ + "a=fingerprint:"@ + fp_alg@ + " "@
            + fp_val@ + "\r\n"@ + "a=group:BUNDLE"@ + bundle_ids_text(vs) + "\r\n"@);
        assert(out@ =~= answer_sdp_text(vs, ufrag@, pwd@, role, fp_alg@, fp_val@, addr@, sid));
    }
    out
}

} // verus!
