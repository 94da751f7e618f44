//! The in-memory description of a media source.
//!
//! The indexing core works on an explicit model of the container a
//! demuxing engine would otherwise walk: a format name and a list of
//! streams, each with its type, its codec name, its timebase and the
//! frames a sequential scan would meet.  A frame whose `corrupt` flag is
//! set stands for a packet that fails to decode during the scan; the
//! error-handling policy of `do_indexing` decides what becomes of it.

use vstd::prelude::*;

use crate::track::{TrackTimebase, TrackType};

verus! {

/// One frame (or packet) met by a sequential scan of a source stream.
#[derive(Clone, Copy, Debug, PartialEq, Eq, Structural)]
pub struct SourceFrame {
    /// Decoding timestamp, in timebase units.
    pub pts: u64,
    /// Repeat First Field flag for an MPEG frame.
    pub repeat_picture: usize,
    /// Whether the frame is a keyframe.
    pub keyframe: bool,
    /// Decoding timestamp before normalization.
    pub original_pts: usize,
    /// Whether the frame fails to decode during an indexing scan.
    pub corrupt: bool,
}

/// The mathematical content of one source stream.
pub struct SourceTrackView {
    /// Track type.
    pub track_type: TrackType,
    /// Codec name.
    pub codec_name: Seq<char>,
    /// Track timebase.
    pub time_base: TrackTimebase,
    /// The frames a sequential scan meets, in scan order.
    pub frames: Seq<SourceFrame>,
}

/// One stream of a media source.
pub struct SourceTrack {
    /// Track type.
    pub track_type: TrackType,
    /// Codec name.
    pub codec_name: String,
    /// Track timebase.
    pub time_base: TrackTimebase,
    /// The frames a sequential scan meets, in scan order.
    pub frames: Vec<SourceFrame>,
}

impl View for SourceTrack {
    type V = SourceTrackView;

    open spec fn view(&self) -> SourceTrackView {
        SourceTrackView {
            track_type: self.track_type,
            codec_name: self.codec_name@,
            time_base: self.time_base,
            frames: self.frames@,
        }
    }
}

impl SourceTrack {
    /// Returns a copy of this stream description.
    pub fn duplicate(&self) -> (r: SourceTrack)
        ensures
            r@ == self@,
    {
        let mut frames: Vec<SourceFrame> = Vec::new();
        let mut i: usize = 0;
        while i < self.frames.len()
            invariant
                i <= self.frames@.len(),
                frames@ =~= self.frames@.take(i as int),
            decreases self.frames@.len() - i,
        {
            frames.push(self.frames[i]);
            proof {
                assert(frames@ =~= self.frames@.take(i + 1 as int));
            }
            i = i + 1;
        }
        proof {
            assert(self.frames@.take(self.frames@.len() as int) =~= self.frames@);
        }
        SourceTrack {
            track_type: self.track_type,
            codec_name: self.codec_name.clone(),
            time_base: self.time_base,
            frames,
        }
    }
}

/// The mathematical content of a media source.
pub struct MediaSourceView {
    /// Container format name.
    pub format_name: Seq<char>,
    /// The source streams, in container order.
    pub tracks: Seq<SourceTrackView>,
}

/// The description of a media source: what a demuxing engine reports
/// about a container and the frames a sequential scan of it meets.
pub struct MediaSource {
    /// Container format name.
    pub format_name: String,
    /// The source streams, in container order.
    pub tracks: Vec<SourceTrack>,
}

impl View for MediaSource {
    type V = MediaSourceView;

    open spec fn view(&self) -> MediaSourceView {
        MediaSourceView {
            format_name: self.format_name@,
            tracks: self.tracks@.map_values(|t: SourceTrack| t@),
        }
    }
}

} // verus!
