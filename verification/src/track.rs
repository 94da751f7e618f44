//! Tracks: per-stream metadata views bound to an index or a live source.

use vstd::prelude::*;

use crate::frame::FrameInfo;
use crate::text::{push_char, push_decimal, spec_decimal};
use vstd::string::StringExecFns;

verus! {

/// Track type.
///
/// It defines the datatype contained in a multimedia stream.
#[derive(Clone, Copy, Debug, PartialEq, Eq, Structural)]
pub enum TrackType {
    /// Unknown datatype.
    Unknown,
    /// A video stream.
    Video,
    /// An audio stream.
    Audio,
    /// A stream of bytes.
    Data,
    /// A subtitle stream.
    Subtitle,
    /// Attachment stream.
    Attachment,
}

/// The engine code of each track type.
pub open spec fn spec_track_type_code(track_type: TrackType) -> int {
    match track_type {
        TrackType::Unknown => -1,
        TrackType::Video => 0,
        TrackType::Audio => 1,
        TrackType::Data => 2,
        TrackType::Subtitle => 3,
        TrackType::Attachment => 4,
    }
}

/// The track type an engine code stands for; unrecognized codes fall back
/// to `Unknown`.
pub open spec fn spec_track_type_of_code(code: int) -> TrackType {
    if code == 0 {
        TrackType::Video
    } else if code == 1 {
        TrackType::Audio
    } else if code == 2 {
        TrackType::Data
    } else if code == 3 {
        TrackType::Subtitle
    } else if code == 4 {
        TrackType::Attachment
    } else {
        TrackType::Unknown
    }
}

impl TrackType {
    /// Returns the engine integer code of this track type.
    pub fn ffms2_track_type(self) -> (r: i32)
        ensures
            r == spec_track_type_code(self),
    {
        match self {
            Self::Unknown => -1,
            Self::Video => 0,
            Self::Audio => 1,
            Self::Data => 2,
            Self::Subtitle => 3,
            Self::Attachment => 4,
        }
    }

    /// Builds a `TrackType` from its engine integer code; unrecognized
    /// codes map to `Unknown`.
    pub fn new(track_type: i32) -> (r: Self)
        ensures
            r == spec_track_type_of_code(track_type as int),
    {
        match track_type {
            0 => Self::Video,
            1 => Self::Audio,
            2 => Self::Data,
            3 => Self::Subtitle,
            4 => Self::Attachment,
            _ => Self::Unknown,
        }
    }
}

/// The outbound and inbound track-type code mappings invert each other:
/// every track type comes back unchanged from its own engine code.
pub proof fn lemma_track_type_code_round_trip(track_type: TrackType)
    ensures
        spec_track_type_of_code(spec_track_type_code(track_type)) == track_type,
{
}

/// Basic time unit of a track.
///
/// This information is only meaningful for video tracks.
///
/// The rational number obtained dividing the `numerator` and `denominator`
/// fields of this structure might occasionally be equal to `1/framerate`
/// for some CFR video tracks.  However, this similarity has no relation
/// whatsoever with the video framerate.
#[derive(Clone, Copy, Debug, PartialEq, Eq, Structural)]
pub struct TrackTimebase {
    /// Timebase numerator.
    pub numerator: usize,
    /// Timebase denominator.
    pub denominator: usize,
}

/// The mathematical content of a track: its type, its timebase, and the
/// indexed frame metadata, absent when the track was not indexed.
pub struct TrackState {
    /// Track type.
    pub track_type: TrackType,
    /// Track timebase.
    pub time_base: TrackTimebase,
    /// Frame metadata; `None` for a track that was not indexed.
    pub frames: Option<Seq<FrameInfo>>,
}

/// The clock-millisecond timestamp of one indexed frame: its timestamp
/// multiplied by the timebase numerator and divided by the denominator.
pub open spec fn spec_frame_ms(f: FrameInfo, numerator: nat, denominator: nat) -> nat {
    ((f.pts * numerator) as int / denominator as int) as nat
}

/// The timecode lines of a list of frames: one clock-millisecond
/// timestamp per line, in frame order.
pub open spec fn spec_timecode_lines(
    frames: Seq<FrameInfo>,
    numerator: nat,
    denominator: nat,
) -> Seq<char>
    decreases frames.len(),
{
    if frames.len() == 0 {
        Seq::empty()
    } else {
        spec_decimal(spec_frame_ms(frames.first(), numerator, denominator)) + seq!['\n']
            + spec_timecode_lines(frames.drop_first(), numerator, denominator)
    }
}

/// The timecode text of an indexed track: the v2 header line, then one
/// line per frame.
pub open spec fn spec_timecodes_text(frames: Seq<FrameInfo>, time_base: TrackTimebase) -> Seq<
    char,
> {
    "# timecode format v2\n"@ + spec_timecode_lines(
        frames,
        time_base.numerator as nat,
        time_base.denominator as nat,
    )
}

/// `spec_timecode_lines` grows one line at a time.
proof fn lemma_timecode_lines_snoc(
    frames: Seq<FrameInfo>,
    f: FrameInfo,
    numerator: nat,
    denominator: nat,
)
    ensures
        spec_timecode_lines(frames.push(f), numerator, denominator) == spec_timecode_lines(
            frames,
            numerator,
            denominator,
        ) + spec_decimal(spec_frame_ms(f, numerator, denominator)) + seq!['\n'],
    decreases frames.len(),
{
    let line = spec_decimal(spec_frame_ms(f, numerator, denominator)) + seq!['\n'];
    if frames.len() == 0 {
        assert(frames.push(f).drop_first() =~= Seq::<FrameInfo>::empty());
        assert(frames =~= Seq::<FrameInfo>::empty());
        assert(spec_timecode_lines(frames.push(f), numerator, denominator)
            =~= spec_timecode_lines(frames, numerator, denominator) + line);
    } else {
        assert(frames.push(f).first() == frames.first());
        assert(frames.push(f).drop_first() =~= frames.drop_first().push(f));
        lemma_timecode_lines_snoc(frames.drop_first(), f, numerator, denominator);
        assert(spec_timecode_lines(frames.push(f), numerator, denominator)
            =~= spec_timecode_lines(frames, numerator, denominator) + line);
    }
}

/// A track contains all information associated with a given multimedia
/// stream: its type, its timebase, and, when the track was indexed,
/// per-frame metadata.
pub struct Track {
    /// Track type.
    pub track_type: TrackType,
    /// Track timebase.
    pub time_base: TrackTimebase,
    /// Indexed frame metadata; `None` for a track that was not indexed.
    pub frames: Option<Vec<FrameInfo>>,
}

impl View for Track {
    type V = TrackState;

    open spec fn view(&self) -> TrackState {
        TrackState {
            track_type: self.track_type,
            time_base: self.time_base,
            frames: match self.frames {
                Some(v) => Some(v@),
                None => None,
            },
        }
    }
}

impl Track {
    /// Builds a `Track` from the given index and track number.
    ///
    /// Fails with `WrongTrack` when the track number is not below the
    /// index's track count; the range check runs before any track data is
    /// touched.
    pub fn from_index(index: &crate::index::Index, track_number: usize) -> (r: crate::error::Result<
        Track,
    >)
        ensures
            track_number >= index@.tracks.len() ==> r == Err::<Track, crate::error::Error>(
                crate::error::Error::WrongTrack,
            ),
            track_number < index@.tracks.len() ==> (r matches Ok(t) && t@ == index@.tracks[
                track_number as int
            ]),
    {
        if track_number >= index.tracks.len() {
            return Err(crate::error::Error::WrongTrack);
        }
        Ok(index.tracks[track_number].duplicate())
    }

    /// Builds a new `Track` from a video source.
    ///
    /// The track type is `Video`.  Fails with a track-handling error
    /// when the source's track was never indexed.
    pub fn from_video(video_source: &mut crate::video::VideoSource) -> (r: crate::error::Result<
        Track,
    >)
        ensures
            *final(video_source) == *old(video_source),
            old(video_source).track@.frames is None ==> r == Err::<Track, crate::error::Error>(
                crate::error::Error::Track,
            ),
            old(video_source).track@.frames is Some ==> (r matches Ok(t) && t@ == old(
                video_source,
            ).track@),
    {
        if video_source.track.frames.is_none() {
            return Err(crate::error::Error::Track);
        }
        Ok(video_source.track.duplicate())
    }

    /// Builds a new `Track` from an audio source.
    ///
    /// The track type is `Audio`.  Fails with a track-handling error
    /// when the source's track was never indexed.
    pub fn from_audio(audio_source: &mut crate::audio::AudioSource) -> (r: crate::error::Result<
        Track,
    >)
        ensures
            *final(audio_source) == *old(audio_source),
            old(audio_source).track@.frames is None ==> r == Err::<Track, crate::error::Error>(
                crate::error::Error::Track,
            ),
            old(audio_source).track@.frames is Some ==> (r matches Ok(t) && t@ == old(
                audio_source,
            ).track@),
    {
        if audio_source.track.frames.is_none() {
            return Err(crate::error::Error::Track);
        }
        Ok(audio_source.track.duplicate())
    }

    /// Returns the track type.
    pub fn track_type(&self) -> (r: TrackType)
        ensures
            r == self@.track_type,
    {
        self.track_type
    }

    /// Returns the track timebase information.
    ///
    /// Only meaningful for video tracks.
    pub fn time_base(&self) -> (r: TrackTimebase)
        ensures
            r == self@.time_base,
    {
        self.time_base
    }

    /// Returns the number of frames present in the track.
    ///
    /// This value is:
    /// - the number of video frames for a video track
    /// - the number of packets for an audio track
    ///
    /// An error indicates the track has not been indexed.
    pub fn frames_count(&self) -> (r: crate::error::Result<usize>)
        ensures
            self@.frames matches Some(frames) ==> r == Ok::<usize, crate::error::Error>(
                frames.len() as usize,
            ),
            self@.frames is None ==> r == Err::<usize, crate::error::Error>(
                crate::error::Error::Frames,
            ),
    {
        match &self.frames {
            Some(frames) => Ok(frames.len()),
            None => Err(crate::error::Error::Frames),
        }
    }

    /// Returns the information on the indexed frame passed as input.
    ///
    /// The track must be indexed and the frame number must lie below the
    /// frame count.
    pub fn frame_info(&self, frame: usize) -> (r: FrameInfo)
        requires
            self@.frames matches Some(frames) && frame < frames.len(),
        ensures
            r == self@.frames->0[frame as int],
    {
        match &self.frames {
            Some(frames) => frames[frame],
            None => {
                proof {
                    assert(false);
                }
                FrameInfo { pts: 0, repeat_picture: 0, keyframe: false, original_pts: 0 }
            },
        }
    }

    /// Returns `Matroska` v2 timecodes text for the track: the header
    /// line, then the clock-millisecond timestamp of each indexed frame
    /// on a line of its own.  Writing the text to a file is the caller's
    /// work.
    ///
    /// Only meaningful for video tracks.  Fails with a track-handling
    /// error when the track was never indexed or its timebase has a zero
    /// denominator.
    pub fn write_timecodes(&self) -> (r: crate::error::Result<String>)
        ensures
            self@.frames is None ==> r == Err::<String, crate::error::Error>(
                crate::error::Error::Track,
            ),
            self@.frames is Some && self@.time_base.denominator == 0 ==> r == Err::<
                String,
                crate::error::Error,
            >(
                crate::error::Error::FFMS2(
                    crate::error::ErrorKind::Track,
                    crate::error::ErrorSubkind::InvalidArgument,
                ),
            ),
            self@.frames matches Some(frames) ==> self@.time_base.denominator > 0 ==> (r matches
                Ok(text) && text@ == spec_timecodes_text(frames, self@.time_base)),
    {
        let frames = match &self.frames {
            Some(frames) => frames,
            None => {
                return Err(crate::error::Error::Track);
            },
        };
        if self.time_base.denominator == 0 {
            return Err(
                crate::error::Error::FFMS2(
                    crate::error::ErrorKind::Track,
                    crate::error::ErrorSubkind::InvalidArgument,
                ),
            );
        }
        let numerator = self.time_base.numerator;
        let denominator = self.time_base.denominator;
        let mut out = String::from_str("# timecode format v2\n");
        let mut i: usize = 0;
        while i < frames.len()
            invariant
                i <= frames@.len(),
                denominator > 0,
                out@ == "# timecode format v2\n"@ + spec_timecode_lines(
                    frames@.take(i as int),
                    numerator as nat,
                    denominator as nat,
                ),
            decreases frames@.len() - i,
        {
            let f = frames[i];
            proof {
                assert((f.pts as u128) * (numerator as u128) <= u128::MAX) by (nonlinear_arith)
                    requires
                        f.pts <= u64::MAX,
                        numerator <= u64::MAX,
                ;
            }
            let product: u128 = (f.pts as u128) * (numerator as u128);
            let ms: u128 = product / (denominator as u128);
            proof {
                assert(ms as nat == spec_frame_ms(f, numerator as nat, denominator as nat));
            }
            push_decimal(&mut out, ms);
            push_char(&mut out, '\n');
            proof {
                lemma_timecode_lines_snoc(
                    frames@.take(i as int),
                    frames@[i as int],
                    numerator as nat,
                    denominator as nat,
                );
                assert(frames@.take(i as int).push(frames@[i as int]) =~= frames@.take(
                    i + 1 as int,
                ));
                assert(out@ =~= "# timecode format v2\n"@ + spec_timecode_lines(
                    frames@.take(i + 1 as int),
                    numerator as nat,
                    denominator as nat,
                ));
            }
            i = i + 1;
        }
        proof {
            assert(frames@.take(frames@.len() as int) =~= frames@);
        }
        Ok(out)
    }

    /// Returns a copy of this track's data.
    pub fn duplicate(&self) -> (r: Track)
        ensures
            r@ == self@,
    {
        let frames = match &self.frames {
            Some(frames) => {
                let mut copy: Vec<FrameInfo> = Vec::new();
                let mut i: usize = 0;
                while i < frames.len()
                    invariant
                        i <= frames.len(),
                        copy@ =~= frames@.take(i as int),
                    decreases frames.len() - i,
                {
                    copy.push(frames[i]);
                    proof {
                        assert(copy@ =~= frames@.take(i + 1 as int));
                    }
                    i = i + 1;
                }
                proof {
                    assert(frames@.take(frames@.len() as int) =~= frames@);
                }
                Some(copy)
            },
            None => None,
        };
        let r = Track { track_type: self.track_type, time_base: self.time_base, frames };
        proof {
            assert(r@.frames matches Some(f) ==> self@.frames matches Some(g) && f =~= g);
        }
        r
    }
}

} // verus!
