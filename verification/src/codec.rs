//! The binary layout of the index artifact.
//!
//! An index file holds a four-byte magic number, a format version byte,
//! the error-handling policy code, and the track count as a little-endian
//! 64-bit integer, followed by one record per track.  A track record
//! holds a type byte, an indexed flag, the timebase as two 64-bit
//! integers and, for an indexed track, the frame count followed by one
//! 25-byte record per frame (timestamp, original timestamp, repeat count,
//! keyframe flag).
//!
//! The serializer and the parser are exact inverses; the public proof
//! functions at the end of this module state the round-trip guarantee.

use vstd::bytes::{
    lemma_auto_spec_u64_to_from_le_bytes, spec_u64_from_le_bytes, spec_u64_to_le_bytes,
    u64_from_le_bytes, u64_to_le_bytes,
};
use vstd::prelude::*;
use vstd::slice::{slice_index_get, slice_subrange};

use crate::error::{Error, ErrorKind, ErrorSubkind};
use crate::frame::FrameInfo;
use crate::index::{
    spec_error_policy_code, spec_error_policy_of_code, IndexErrorPolicy, IndexView,
};
use crate::track::{Track, TrackState, TrackTimebase, TrackType};

verus! {

/// Format version written after the magic number.
pub const FORMAT_VERSION: u8 = 1;

/// The four magic bytes that open an index artifact.
pub open spec fn spec_magic() -> Seq<u8> {
    seq![0x46u8, 0x49u8, 0x44u8, 0x58u8]
}

/// The byte that stands for a track type in the artifact.
pub open spec fn spec_track_type_byte(track_type: TrackType) -> u8 {
    match track_type {
        TrackType::Unknown => 0,
        TrackType::Video => 1,
        TrackType::Audio => 2,
        TrackType::Data => 3,
        TrackType::Subtitle => 4,
        TrackType::Attachment => 5,
    }
}

/// The track type a byte of the artifact stands for, when defined.
pub open spec fn spec_track_type_of_byte(code: u8) -> Option<TrackType> {
    if code == 0 {
        Some(TrackType::Unknown)
    } else if code == 1 {
        Some(TrackType::Video)
    } else if code == 2 {
        Some(TrackType::Audio)
    } else if code == 3 {
        Some(TrackType::Data)
    } else if code == 4 {
        Some(TrackType::Subtitle)
    } else if code == 5 {
        Some(TrackType::Attachment)
    } else {
        None
    }
}

fn track_type_byte(track_type: TrackType) -> (r: u8)
    ensures
        r == spec_track_type_byte(track_type),
{
    match track_type {
        TrackType::Unknown => 0,
        TrackType::Video => 1,
        TrackType::Audio => 2,
        TrackType::Data => 3,
        TrackType::Subtitle => 4,
        TrackType::Attachment => 5,
    }
}

fn track_type_of_byte(code: u8) -> (r: Option<TrackType>)
    ensures
        r == spec_track_type_of_byte(code),
{
    match code {
        0 => Some(TrackType::Unknown),
        1 => Some(TrackType::Video),
        2 => Some(TrackType::Audio),
        3 => Some(TrackType::Data),
        4 => Some(TrackType::Subtitle),
        5 => Some(TrackType::Attachment),
        _ => None,
    }
}

// ---------------------------------------------------------------------
// Serialization, at the specification level.
// ---------------------------------------------------------------------

/// The bytes of one frame record.
pub open spec fn spec_ser_frame(f: FrameInfo) -> Seq<u8> {
    spec_u64_to_le_bytes(f.pts) + spec_u64_to_le_bytes(f.original_pts as u64)
        + spec_u64_to_le_bytes(f.repeat_picture as u64) + seq![
        if f.keyframe {
            1u8
        } else {
            0u8
        },
    ]
}

/// The bytes of a list of frame records, in order.
pub open spec fn spec_ser_frames(frames: Seq<FrameInfo>) -> Seq<u8>
    decreases frames.len(),
{
    if frames.len() == 0 {
        Seq::empty()
    } else {
        spec_ser_frame(frames.first()) + spec_ser_frames(frames.drop_first())
    }
}

/// The bytes of one track record.
pub open spec fn spec_ser_track(t: TrackState) -> Seq<u8> {
    seq![spec_track_type_byte(t.track_type)] + seq![
        if t.frames is Some {
            1u8
        } else {
            0u8
        },
    ] + spec_u64_to_le_bytes(t.time_base.numerator as u64) + spec_u64_to_le_bytes(
        t.time_base.denominator as u64,
    ) + match t.frames {
        Some(frames) => spec_u64_to_le_bytes(frames.len() as u64) + spec_ser_frames(frames),
        None => Seq::empty(),
    }
}

/// The bytes of a list of track records, in order.
pub open spec fn spec_ser_tracks(tracks: Seq<TrackState>) -> Seq<u8>
    decreases tracks.len(),
{
    if tracks.len() == 0 {
        Seq::empty()
    } else {
        spec_ser_track(tracks.first()) + spec_ser_tracks(tracks.drop_first())
    }
}

/// The bytes of a whole index artifact.
pub open spec fn spec_ser_index(v: IndexView) -> Seq<u8> {
    spec_magic() + seq![FORMAT_VERSION] + seq![spec_error_policy_code(v.error_handling) as u8]
        + spec_u64_to_le_bytes(v.tracks.len() as u64) + spec_ser_tracks(v.tracks)
}

/// True of track content whose frame count fits the artifact's 64-bit
/// length field.
pub open spec fn spec_wf_track(t: TrackState) -> bool {
    t.frames matches Some(frames) ==> frames.len() <= u64::MAX
}

/// True of index content that the artifact layout can carry.  Every index
/// built by this library satisfies it.
pub open spec fn spec_wf_index(v: IndexView) -> bool {
    &&& v.tracks.len() <= u64::MAX
    &&& forall|i: int| 0 <= i < v.tracks.len() ==> spec_wf_track(#[trigger] v.tracks[i])
}

// ---------------------------------------------------------------------
// Parsing, at the specification level.
// ---------------------------------------------------------------------

/// Reads one frame record off the front of `b`.
pub open spec fn spec_parse_frame(b: Seq<u8>) -> Option<(FrameInfo, Seq<u8>)> {
    if b.len() < 25 {
        None
    } else {
        let pts = spec_u64_from_le_bytes(b.subrange(0, 8));
        let original_pts = spec_u64_from_le_bytes(b.subrange(8, 16));
        let repeat_picture = spec_u64_from_le_bytes(b.subrange(16, 24));
        let flag = b[24];
        if original_pts > usize::MAX || repeat_picture > usize::MAX || flag > 1 {
            None
        } else {
            Some(
                (
                    FrameInfo {
                        pts,
                        repeat_picture: repeat_picture as usize,
                        keyframe: flag == 1,
                        original_pts: original_pts as usize,
                    },
                    b.skip(25),
                ),
            )
        }
    }
}

/// Reads `n` frame records off the front of `b`.
pub open spec fn spec_parse_frames(b: Seq<u8>, n: nat) -> Option<(Seq<FrameInfo>, Seq<u8>)>
    decreases n,
{
    if n == 0 {
        Some((Seq::empty(), b))
    } else {
        match spec_parse_frame(b) {
            None => None,
            Some((f, rest)) => match spec_parse_frames(rest, (n - 1) as nat) {
                None => None,
                Some((fs, rest2)) => Some((seq![f] + fs, rest2)),
            },
        }
    }
}

/// Reads one track record off the front of `b`.
pub open spec fn spec_parse_track(b: Seq<u8>) -> Option<(TrackState, Seq<u8>)> {
    if b.len() < 18 {
        None
    } else {
        let type_byte = b[0];
        let indexed = b[1];
        let numerator = spec_u64_from_le_bytes(b.subrange(2, 10));
        let denominator = spec_u64_from_le_bytes(b.subrange(10, 18));
        if spec_track_type_of_byte(type_byte) is None || indexed > 1 || numerator > usize::MAX
            || denominator > usize::MAX {
            None
        } else {
            let track_type = spec_track_type_of_byte(type_byte)->0;
            let time_base = TrackTimebase {
                numerator: numerator as usize,
                denominator: denominator as usize,
            };
            if indexed == 0 {
                Some((TrackState { track_type, time_base, frames: None }, b.skip(18)))
            } else {
                let after = b.skip(18);
                if after.len() < 8 {
                    None
                } else {
                    let count = spec_u64_from_le_bytes(after.subrange(0, 8));
                    match spec_parse_frames(after.skip(8), count as nat) {
                        None => None,
                        Some((frames, rest)) => Some(
                            (TrackState { track_type, time_base, frames: Some(frames) }, rest),
                        ),
                    }
                }
            }
        }
    }
}

/// Reads `n` track records off the front of `b`.
pub open spec fn spec_parse_tracks(b: Seq<u8>, n: nat) -> Option<(Seq<TrackState>, Seq<u8>)>
    decreases n,
{
    if n == 0 {
        Some((Seq::empty(), b))
    } else {
        match spec_parse_track(b) {
            None => None,
            Some((t, rest)) => match spec_parse_tracks(rest, (n - 1) as nat) {
                None => None,
                Some((ts, rest2)) => Some((seq![t] + ts, rest2)),
            },
        }
    }
}

/// Reads a whole index artifact: every byte of `b` must be consumed.
pub open spec fn spec_parse_index(b: Seq<u8>) -> Option<IndexView> {
    if b.len() < 14 {
        None
    } else if b.subrange(0, 4) != spec_magic() {
        None
    } else if b[4] != FORMAT_VERSION {
        None
    } else {
        match spec_error_policy_of_code(b[5] as int) {
            None => None,
            Some(error_handling) => {
                let n = spec_u64_from_le_bytes(b.subrange(6, 14));
                match spec_parse_tracks(b.skip(14), n as nat) {
                    None => None,
                    Some((tracks, rest)) => if rest.len() == 0 {
                        Some(IndexView { error_handling, tracks })
                    } else {
                        None
                    },
                }
            },
        }
    }
}

/// True of bytes that carry the right magic number but a format version
/// this library does not read.
pub open spec fn spec_version_mismatch(b: Seq<u8>) -> bool {
    b.len() >= 5 && b.subrange(0, 4) == spec_magic() && b[4] != FORMAT_VERSION
}

// ---------------------------------------------------------------------
// Round trip: parsing inverts serialization.
// ---------------------------------------------------------------------

/// A serialized frame record is 25 bytes long.
proof fn lemma_ser_frame_len(f: FrameInfo)
    ensures
        spec_ser_frame(f).len() == 25,
{
    lemma_auto_spec_u64_to_from_le_bytes();
}

/// Reading a frame record off its own serialization yields the frame
/// back and leaves exactly the trailing bytes.
proof fn lemma_parse_ser_frame(f: FrameInfo, rest: Seq<u8>)
    ensures
        spec_parse_frame(spec_ser_frame(f) + rest) == Some((f, rest)),
{
    lemma_auto_spec_u64_to_from_le_bytes();
    let b = spec_ser_frame(f) + rest;
    assert(b.subrange(0, 8) =~= spec_u64_to_le_bytes(f.pts));
    assert(b.subrange(8, 16) =~= spec_u64_to_le_bytes(f.original_pts as u64));
    assert(b.subrange(16, 24) =~= spec_u64_to_le_bytes(f.repeat_picture as u64));
    assert(b[24] == if f.keyframe {
        1u8
    } else {
        0u8
    });
    assert(b.skip(25) =~= rest);
    assert(spec_parse_frame(b) == Some((f, rest)));
}

/// Reading `n` frame records off their own serialization yields them all
/// back, in order.
proof fn lemma_parse_ser_frames(frames: Seq<FrameInfo>, rest: Seq<u8>)
    ensures
        spec_parse_frames(spec_ser_frames(frames) + rest, frames.len()) == Some((frames, rest)),
    decreases frames.len(),
{
    if frames.len() == 0 {
        assert(spec_ser_frames(frames) + rest =~= rest);
        assert(spec_parse_frames(rest, 0) == Some((Seq::<FrameInfo>::empty(), rest)));
        assert(frames =~= Seq::<FrameInfo>::empty());
    } else {
        let f = frames.first();
        let tail = frames.drop_first();
        assert(spec_ser_frames(frames) + rest =~= spec_ser_frame(f) + (spec_ser_frames(tail)
            + rest));
        lemma_parse_ser_frame(f, spec_ser_frames(tail) + rest);
        lemma_parse_ser_frames(tail, rest);
        assert(seq![f] + tail =~= frames);
    }
}

/// Reading a track record off its own serialization yields the track
/// back and leaves exactly the trailing bytes.
proof fn lemma_parse_ser_track(t: TrackState, rest: Seq<u8>)
    requires
        spec_wf_track(t),
    ensures
        spec_parse_track(spec_ser_track(t) + rest) == Some((t, rest)),
{
    lemma_auto_spec_u64_to_from_le_bytes();
    let b = spec_ser_track(t) + rest;
    assert(b[0] == spec_track_type_byte(t.track_type));
    assert(b[1] == if t.frames is Some {
        1u8
    } else {
        0u8
    });
    assert(b.subrange(2, 10) =~= spec_u64_to_le_bytes(t.time_base.numerator as u64));
    assert(b.subrange(10, 18) =~= spec_u64_to_le_bytes(t.time_base.denominator as u64));
    assert(spec_track_type_of_byte(spec_track_type_byte(t.track_type)) == Some(t.track_type));
    match t.frames {
        None => {
            assert(b.skip(18) =~= rest);
        },
        Some(frames) => {
            let after = b.skip(18);
            assert(after =~= spec_u64_to_le_bytes(frames.len() as u64) + (spec_ser_frames(frames)
                + rest));
            assert(after.subrange(0, 8) =~= spec_u64_to_le_bytes(frames.len() as u64));
            assert(after.skip(8) =~= spec_ser_frames(frames) + rest);
            lemma_parse_ser_frames(frames, rest);
        },
    }
}

/// Reading `n` track records off their own serialization yields them all
/// back, in order.
proof fn lemma_parse_ser_tracks(tracks: Seq<TrackState>, rest: Seq<u8>)
    requires
        forall|i: int| 0 <= i < tracks.len() ==> spec_wf_track(#[trigger] tracks[i]),
    ensures
        spec_parse_tracks(spec_ser_tracks(tracks) + rest, tracks.len()) == Some((tracks, rest)),
    decreases tracks.len(),
{
    if tracks.len() == 0 {
        assert(spec_ser_tracks(tracks) + rest =~= rest);
        assert(tracks =~= Seq::<TrackState>::empty());
    } else {
        let t = tracks.first();
        let tail = tracks.drop_first();
        assert(spec_ser_tracks(tracks) + rest =~= spec_ser_track(t) + (spec_ser_tracks(tail)
            + rest));
        lemma_parse_ser_track(t, spec_ser_tracks(tail) + rest);
        assert(forall|i: int| 0 <= i < tail.len() ==> spec_wf_track(#[trigger] tail[i]));
        lemma_parse_ser_tracks(tail, rest);
        assert(seq![t] + tail =~= tracks);
    }
}

/// Round trip: parsing the serialization of any representable index
/// content yields exactly that content.  This is the heart of the
/// write-then-read guarantee of the index artifact.
pub proof fn lemma_index_round_trip(v: IndexView)
    requires
        spec_wf_index(v),
    ensures
        spec_parse_index(spec_ser_index(v)) == Some(v),
{
    lemma_auto_spec_u64_to_from_le_bytes();
    let b = spec_ser_index(v);
    assert(b.subrange(0, 4) =~= spec_magic());
    assert(b[4] == FORMAT_VERSION);
    assert(b[5] == spec_error_policy_code(v.error_handling) as u8);
    assert(spec_error_policy_of_code(b[5] as int) == Some(v.error_handling));
    assert(b.subrange(6, 14) =~= spec_u64_to_le_bytes(v.tracks.len() as u64));
    assert(b.skip(14) =~= spec_ser_tracks(v.tracks) + Seq::<u8>::empty());
    lemma_parse_ser_tracks(v.tracks, Seq::<u8>::empty());
    assert(spec_parse_tracks(b.skip(14), v.tracks.len()) == Some(
        (v.tracks, Seq::<u8>::empty()),
    ));
}

/// Every index value this library holds has representable content: its
/// track and frame counts are executable vector lengths, which fit the
/// artifact's 64-bit length fields.
pub proof fn lemma_index_value_wf(ix: crate::index::Index)
    ensures
        spec_wf_index(ix@),
{
    broadcast use vstd::std_specs::vec::axiom_spec_len;

    assert(vstd::std_specs::vec::spec_vec_len(&ix.tracks) == ix.tracks@.len());
    assert forall|i: int| 0 <= i < ix@.tracks.len() implies spec_wf_track(
        #[trigger] ix@.tracks[i],
    ) by {
        assert(ix@.tracks[i] == ix.tracks@[i]@);
        match ix.tracks@[i].frames {
            Some(frames) => {
                assert(vstd::std_specs::vec::spec_vec_len(&frames) == frames@.len());
            },
            None => {},
        }
    }
}

/// Round trip at the index level: the artifact written for any index
/// this library holds parses back to exactly its content.  Writing an
/// index to a file or a buffer and reading it back therefore yields an
/// index with the same track count, track types, timebases and frames.
pub proof fn lemma_index_write_read_round_trip(ix: crate::index::Index)
    ensures
        spec_parse_index(spec_ser_index(ix@)) == Some(ix@),
{
    lemma_index_value_wf(ix);
    lemma_index_round_trip(ix@);
}

// ---------------------------------------------------------------------
// Serialization, executable.
// ---------------------------------------------------------------------

/// Appends the little-endian bytes of `x`.
fn push_u64(out: &mut Vec<u8>, x: u64)
    ensures
        final(out)@ == old(out)@ + spec_u64_to_le_bytes(x),
{
    let mut bytes = u64_to_le_bytes(x);
    out.append(&mut bytes);
}

/// Appends one frame record.
fn ser_frame_into(out: &mut Vec<u8>, f: &FrameInfo)
    ensures
        final(out)@ == old(out)@ + spec_ser_frame(*f),
{
    push_u64(out, f.pts);
    push_u64(out, f.original_pts as u64);
    push_u64(out, f.repeat_picture as u64);
    if f.keyframe {
        out.push(1u8);
    } else {
        out.push(0u8);
    }
    assert(out@ =~= old(out)@ + spec_ser_frame(*f));
}

/// `spec_ser_frames` grows one record at a time.
proof fn lemma_ser_frames_snoc(frames: Seq<FrameInfo>, f: FrameInfo)
    ensures
        spec_ser_frames(frames.push(f)) == spec_ser_frames(frames) + spec_ser_frame(f),
    decreases frames.len(),
{
    if frames.len() == 0 {
        assert(frames == Seq::<FrameInfo>::empty());
        assert(spec_ser_frames(Seq::<FrameInfo>::empty()) == Seq::<u8>::empty());
        assert(frames.push(f).first() == f);
        assert(frames.push(f).drop_first() =~= Seq::<FrameInfo>::empty());
        assert(spec_ser_frames(frames.push(f)) =~= spec_ser_frames(frames) + spec_ser_frame(f));
    } else {
        assert(frames.push(f).first() == frames.first());
        assert(frames.push(f).drop_first() =~= frames.drop_first().push(f));
        lemma_ser_frames_snoc(frames.drop_first(), f);
        assert(spec_ser_frames(frames.push(f)) =~= spec_ser_frames(frames) + spec_ser_frame(f));
    }
}

/// `spec_ser_tracks` grows one record at a time.
proof fn lemma_ser_tracks_snoc(tracks: Seq<TrackState>, t: TrackState)
    ensures
        spec_ser_tracks(tracks.push(t)) == spec_ser_tracks(tracks) + spec_ser_track(t),
    decreases tracks.len(),
{
    if tracks.len() == 0 {
        assert(tracks == Seq::<TrackState>::empty());
        assert(spec_ser_tracks(Seq::<TrackState>::empty()) == Seq::<u8>::empty());
        assert(tracks.push(t).first() == t);
        assert(tracks.push(t).drop_first() =~= Seq::<TrackState>::empty());
        assert(spec_ser_tracks(tracks.push(t)) =~= spec_ser_tracks(tracks) + spec_ser_track(t));
    } else {
        assert(tracks.push(t).first() == tracks.first());
        assert(tracks.push(t).drop_first() =~= tracks.drop_first().push(t));
        lemma_ser_tracks_snoc(tracks.drop_first(), t);
        assert(spec_ser_tracks(tracks.push(t)) =~= spec_ser_tracks(tracks) + spec_ser_track(t));
    }
}

/// Appends one track record.
fn ser_track_into(out: &mut Vec<u8>, track: &Track)
    ensures
        final(out)@ == old(out)@ + spec_ser_track(track@),
{
    out.push(track_type_byte(track.track_type));
    match &track.frames {
        Some(frames) => {
            out.push(1u8);
            push_u64(out, track.time_base.numerator as u64);
            push_u64(out, track.time_base.denominator as u64);
            push_u64(out, frames.len() as u64);
            let ghost header = out@;
            let mut i: usize = 0;
            while i < frames.len()
                invariant
                    i <= frames.len(),
                    out@ == header + spec_ser_frames(frames@.take(i as int)),
                decreases frames.len() - i,
            {
                ser_frame_into(out, &frames[i]);
                proof {
                    lemma_ser_frames_snoc(frames@.take(i as int), frames@[i as int]);
                    assert(frames@.take(i as int).push(frames@[i as int]) =~= frames@.take(
                        i + 1 as int,
                    ));
                    assert(out@ =~= header + spec_ser_frames(frames@.take(i + 1 as int)));
                }
                i = i + 1;
            }
            proof {
                assert(frames@.take(frames@.len() as int) =~= frames@);
                assert(out@ =~= old(out)@ + spec_ser_track(track@));
            }
        },
        None => {
            out.push(0u8);
            push_u64(out, track.time_base.numerator as u64);
            push_u64(out, track.time_base.denominator as u64);
            assert(out@ =~= old(out)@ + spec_ser_track(track@));
        },
    }
}

/// Serializes a whole index artifact.
pub(crate) fn ser_index(error_handling: IndexErrorPolicy, tracks: &Vec<Track>) -> (r: Vec<u8>)
    ensures
        r@ == spec_ser_index(
            IndexView { error_handling, tracks: tracks@.map_values(|t: Track| t@) },
        ),
{
    let ghost v = IndexView { error_handling, tracks: tracks@.map_values(|t: Track| t@) };
    let mut out: Vec<u8> = Vec::new();
    out.push(0x46u8);
    out.push(0x49u8);
    out.push(0x44u8);
    out.push(0x58u8);
    out.push(FORMAT_VERSION);
    out.push(error_handling.code());
    push_u64(&mut out, tracks.len() as u64);
    let ghost header = out@;
    proof {
        assert(header =~= spec_magic() + seq![FORMAT_VERSION] + seq![
            spec_error_policy_code(v.error_handling) as u8,
        ] + spec_u64_to_le_bytes(v.tracks.len() as u64));
    }
    let mut i: usize = 0;
    while i < tracks.len()
        invariant
            i <= tracks.len(),
            out@ == header + spec_ser_tracks(tracks@.map_values(|t: Track| t@).take(i as int)),
        decreases tracks.len() - i,
    {
        ser_track_into(&mut out, &tracks[i]);
        proof {
            let views = tracks@.map_values(|t: Track| t@);
            lemma_ser_tracks_snoc(views.take(i as int), views[i as int]);
            assert(views.take(i as int).push(views[i as int]) =~= views.take(i + 1 as int));
            assert(out@ =~= header + spec_ser_tracks(views.take(i + 1 as int)));
        }
        i = i + 1;
    }
    proof {
        let views = tracks@.map_values(|t: Track| t@);
        assert(views.take(views.len() as int) =~= views);
        assert(out@ =~= spec_ser_index(v));
    }
    out
}

// ---------------------------------------------------------------------
// Parsing, executable.
// ---------------------------------------------------------------------

/// Reads one frame record at `pos`.
fn parse_frame(b: &[u8], pos: usize) -> (r: Option<(FrameInfo, usize)>)
    requires
        pos <= b@.len(),
    ensures
        match spec_parse_frame(b@.skip(pos as int)) {
            Some((f, rest)) => r matches Some((frame, p2)) && frame == f && pos <= p2 <= b@.len()
                && rest == b@.skip(p2 as int),
            None => r is None,
        },
{
    let ghost s = b@.skip(pos as int);
    if b.len() - pos < 25 {
        return None;
    }
    let pts_bytes = slice_subrange(b, pos, pos + 8);
    let opts_bytes = slice_subrange(b, pos + 8, pos + 16);
    let rep_bytes = slice_subrange(b, pos + 16, pos + 24);
    proof {
        assert(pts_bytes@ =~= s.subrange(0, 8));
        assert(opts_bytes@ =~= s.subrange(8, 16));
        assert(rep_bytes@ =~= s.subrange(16, 24));
    }
    let pts = u64_from_le_bytes(pts_bytes);
    let original_pts = u64_from_le_bytes(opts_bytes);
    let repeat_picture = u64_from_le_bytes(rep_bytes);
    let flag = *slice_index_get(b, pos + 24);
    proof {
        assert(flag == s[24]);
    }
    if original_pts > usize::MAX as u64 || repeat_picture > usize::MAX as u64 || flag > 1 {
        return None;
    }
    let frame = FrameInfo {
        pts,
        repeat_picture: repeat_picture as usize,
        keyframe: flag == 1,
        original_pts: original_pts as usize,
    };
    proof {
        assert(s.skip(25) =~= b@.skip(pos + 25 as int));
    }
    Some((frame, pos + 25))
}

/// Reads `n` frame records at `pos`.
fn parse_frames(b: &[u8], pos: usize, n: u64) -> (r: Option<(Vec<FrameInfo>, usize)>)
    requires
        pos <= b@.len(),
    ensures
        match spec_parse_frames(b@.skip(pos as int), n as nat) {
            Some((fs, rest)) => r matches Some((frames, p2)) && frames@ == fs && pos <= p2
                <= b@.len() && rest == b@.skip(p2 as int),
            None => r is None,
        },
{
    let mut frames: Vec<FrameInfo> = Vec::new();
    let mut cursor: usize = pos;
    let mut k: u64 = 0;
    proof {
        if spec_parse_frames(b@.skip(pos as int), n as nat) is Some {
            let (fs, rest) = spec_parse_frames(b@.skip(pos as int), n as nat)->0;
            assert(frames@ + fs =~= fs);
        }
    }
    while k < n
        invariant
            k <= n,
            pos <= cursor <= b@.len(),
            frames@.len() == k,
            spec_parse_frames(b@.skip(pos as int), n as nat) == match spec_parse_frames(
                b@.skip(cursor as int),
                (n - k) as nat,
            ) {
                Some((fs, rest)) => Some::<(Seq<FrameInfo>, Seq<u8>)>((frames@ + fs, rest)),
                None => None::<(Seq<FrameInfo>, Seq<u8>)>,
            },
        decreases n - k,
    {
        let ghost cur = b@.skip(cursor as int);
        let ghost m = (n - k) as nat;
        match parse_frame(b, cursor) {
            None => {
                proof {
                    assert(m != 0);
                    assert(spec_parse_frame(cur) is None);
                    assert(spec_parse_frames(cur, m) is None);
                }
                return None;
            },
            Some((frame, p2)) => {
                proof {
                    assert(m != 0);
                    let (f, rest) = spec_parse_frame(cur)->0;
                    assert(frame == f && rest == b@.skip(p2 as int));
                }
                frames.push(frame);
                cursor = p2;
                k = k + 1;
                proof {
                    let prev = frames@.drop_last();
                    let f = frames@.last();
                    assert(spec_parse_frame(cur) == Some((f, b@.skip(cursor as int))));
                    match spec_parse_frames(b@.skip(cursor as int), (n - k) as nat) {
                        Some((fs, rest)) => {
                            assert(spec_parse_frames(cur, m) == Some(
                                (seq![f] + fs, rest),
                            ));
                            assert(prev + (seq![f] + fs) =~= frames@ + fs);
                        },
                        None => {
                            assert(spec_parse_frames(cur, m) is None);
                        },
                    }
                }
            },
        }
    }
    proof {
        assert(spec_parse_frames(b@.skip(cursor as int), 0) == Some(
            (Seq::<FrameInfo>::empty(), b@.skip(cursor as int)),
        ));
        assert(frames@ + Seq::<FrameInfo>::empty() =~= frames@);
    }
    Some((frames, cursor))
}

/// Reads one track record at `pos`.
fn parse_track(b: &[u8], pos: usize) -> (r: Option<(Track, usize)>)
    requires
        pos <= b@.len(),
    ensures
        match spec_parse_track(b@.skip(pos as int)) {
            Some((t, rest)) => r matches Some((track, p2)) && track@ == t && pos <= p2 <= b@.len()
                && rest == b@.skip(p2 as int),
            None => r is None,
        },
{
    let ghost s = b@.skip(pos as int);
    if b.len() - pos < 18 {
        return None;
    }
    let type_byte = *slice_index_get(b, pos);
    let indexed = *slice_index_get(b, pos + 1);
    let num_bytes = slice_subrange(b, pos + 2, pos + 10);
    let den_bytes = slice_subrange(b, pos + 10, pos + 18);
    proof {
        assert(type_byte == s[0]);
        assert(indexed == s[1]);
        assert(num_bytes@ =~= s.subrange(2, 10));
        assert(den_bytes@ =~= s.subrange(10, 18));
    }
    let numerator = u64_from_le_bytes(num_bytes);
    let denominator = u64_from_le_bytes(den_bytes);
    let track_type = match track_type_of_byte(type_byte) {
        Some(track_type) => track_type,
        None => {
            return None;
        },
    };
    if indexed > 1 || numerator > usize::MAX as u64 || denominator > usize::MAX as u64 {
        return None;
    }
    let time_base = TrackTimebase {
        numerator: numerator as usize,
        denominator: denominator as usize,
    };
    if indexed == 0 {
        proof {
            assert(s.skip(18) =~= b@.skip(pos + 18 as int));
        }
        return Some((Track { track_type, time_base, frames: None }, pos + 18));
    }
    let ghost after = s.skip(18);
    proof {
        assert(after =~= b@.skip(pos + 18 as int));
    }
    if b.len() - (pos + 18) < 8 {
        return None;
    }
    let count_bytes = slice_subrange(b, pos + 18, pos + 26);
    proof {
        assert(count_bytes@ =~= after.subrange(0, 8));
    }
    let count = u64_from_le_bytes(count_bytes);
    proof {
        assert(after.skip(8) =~= b@.skip(pos + 26 as int));
    }
    match parse_frames(b, pos + 26, count) {
        None => None,
        Some((frames, p2)) => Some((Track { track_type, time_base, frames: Some(frames) }, p2)),
    }
}

/// The parsed policy and tracks of an index artifact, when `b` is one.
///
/// The result is `Ok` exactly when the bytes parse, and the parsed
/// content is then returned; a recognizable artifact with the wrong
/// format version is reported as a version error, every other malformed
/// input as a file-read error.
pub(crate) fn parse_index(b: &[u8]) -> (r: Result<(IndexErrorPolicy, Vec<Track>), Error>)
    ensures
        match spec_parse_index(b@) {
            Some(v) => r matches Ok((p, ts)) && p == v.error_handling && ts@.map_values(
                |t: Track| t@,
            ) == v.tracks,
            None => r is Err,
        },
        r is Err ==> r == Err::<(IndexErrorPolicy, Vec<Track>), Error>(
            if spec_version_mismatch(b@) {
                Error::FFMS2(ErrorKind::Index, ErrorSubkind::Version)
            } else {
                Error::FFMS2(ErrorKind::Index, ErrorSubkind::FileRead)
            },
        ),
{
    let read_error = Error::FFMS2(ErrorKind::Index, ErrorSubkind::FileRead);
    if b.len() < 4 {
        return Err(read_error);
    }
    if *slice_index_get(b, 0) != 0x46u8 || *slice_index_get(b, 1) != 0x49u8 || *slice_index_get(
        b,
        2,
    ) != 0x44u8 || *slice_index_get(b, 3) != 0x58u8 {
        proof {
            assert(b@.subrange(0, 4) != spec_magic());
        }
        return Err(read_error);
    }
    proof {
        assert(b@.subrange(0, 4) =~= spec_magic());
    }
    if b.len() < 5 {
        return Err(read_error);
    }
    if *slice_index_get(b, 4) != FORMAT_VERSION {
        return Err(Error::FFMS2(ErrorKind::Index, ErrorSubkind::Version));
    }
    if b.len() < 14 {
        return Err(read_error);
    }
    let error_handling = match IndexErrorPolicy::new(*slice_index_get(b, 5)) {
        Some(error_handling) => error_handling,
        None => {
            return Err(read_error);
        },
    };
    let count_bytes = slice_subrange(b, 6, 14);
    proof {
        assert(count_bytes@ =~= b@.subrange(6, 14));
    }
    let n = u64_from_le_bytes(count_bytes);
    let mut tracks: Vec<Track> = Vec::new();
    let mut pos: usize = 14;
    let mut k: u64 = 0;
    proof {
        assert(b@.skip(14) =~= b@.skip(pos as int));
        if spec_parse_tracks(b@.skip(14), n as nat) is Some {
            let (ts, rest) = spec_parse_tracks(b@.skip(14), n as nat)->0;
            assert(tracks@.map_values(|t: Track| t@) + ts =~= ts);
        }
    }
    while k < n
        invariant
            k <= n,
            14 <= pos <= b@.len(),
            tracks@.len() == k,
            b@.len() >= 14,
            b@.subrange(0, 4) == spec_magic(),
            b@[4] == FORMAT_VERSION,
            spec_error_policy_of_code(b@[5] as int) == Some(error_handling),
            n == spec_u64_from_le_bytes(b@.subrange(6, 14)),
            spec_parse_tracks(b@.skip(14), n as nat) == match spec_parse_tracks(
                b@.skip(pos as int),
                (n - k) as nat,
            ) {
                Some((ts, rest)) => Some::<(Seq<TrackState>, Seq<u8>)>(
                    (tracks@.map_values(|t: Track| t@) + ts, rest),
                ),
                None => None::<(Seq<TrackState>, Seq<u8>)>,
            },
        decreases n - k,
    {
        let ghost cur = b@.skip(pos as int);
        let ghost m = (n - k) as nat;
        match parse_track(b, pos) {
            None => {
                proof {
                    assert(m != 0);
                    assert(spec_parse_tracks(cur, m) is None);
                    assert(spec_parse_index(b@) is None);
                }
                return Err(Error::FFMS2(ErrorKind::Index, ErrorSubkind::FileRead));
            },
            Some((track, p2)) => {
                proof {
                    assert(m != 0);
                }
                tracks.push(track);
                pos = p2;
                k = k + 1;
                proof {
                    let views = tracks@.map_values(|t: Track| t@);
                    let prev = tracks@.drop_last().map_values(|t: Track| t@);
                    let t = tracks@.last()@;
                    assert(prev =~= views.drop_last());
                    assert(t == views.last());
                    assert(spec_parse_track(cur) == Some((t, b@.skip(pos as int))));
                    match spec_parse_tracks(b@.skip(pos as int), (n - k) as nat) {
                        Some((ts, rest)) => {
                            assert(spec_parse_tracks(cur, m) == Some((seq![t] + ts, rest)));
                            assert(views.drop_last() + (seq![t] + ts) =~= views + ts);
                            assert(prev + (seq![t] + ts) =~= views + ts);
                        },
                        None => {
                            assert(spec_parse_tracks(cur, m) is None);
                        },
                    }
                }
            },
        }
    }
    if pos != b.len() {
        proof {
            assert(b@.skip(pos as int).len() != 0);
            assert(spec_parse_tracks(b@.skip(pos as int), 0) == Some(
                (Seq::<TrackState>::empty(), b@.skip(pos as int)),
            ));
            assert(tracks@.map_values(|t: Track| t@) + Seq::<TrackState>::empty() =~= tracks
                @.map_values(|t: Track| t@));
            assert(spec_parse_index(b@) is None);
        }
        return Err(read_error);
    }
    proof {
        assert(b@.skip(pos as int).len() == 0);
        assert(spec_parse_tracks(b@.skip(pos as int), 0) == Some(
            (Seq::<TrackState>::empty(), b@.skip(pos as int)),
        ));
        assert(tracks@.map_values(|t: Track| t@) + Seq::<TrackState>::empty() =~= tracks
            @.map_values(|t: Track| t@));
        assert(spec_parse_index(b@) == Some(
            IndexView { error_handling, tracks: tracks@.map_values(|t: Track| t@) },
        ));
    }
    Ok((error_handling, tracks))
}

} // verus!
