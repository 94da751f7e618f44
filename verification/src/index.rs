//! The immutable index artifact and the indexer that produces it.

use vstd::prelude::*;

use crate::error::{Error, ErrorKind, ErrorSubkind};
use crate::frame::FrameInfo;
use crate::source::{MediaSource, MediaSourceView, SourceTrack, SourceTrackView};
use crate::track::{Track, TrackState, TrackType};

verus! {

/// What the indexing process does when it hits a decode error on a track.
///
/// The value is supplied once per `do_indexing` call and applies uniformly
/// to every track scanned in that run.
#[derive(Clone, Copy, Debug, PartialEq, Eq, Structural)]
pub enum IndexErrorPolicy {
    /// Propagate a hard error: a decode error on any indexed track aborts
    /// the entire indexing run.
    Abort,
    /// Discard all entries already collected for the offending track and
    /// return it blank.
    ClearTrack,
    /// Keep everything indexed up to the failure point for the offending
    /// track; stop collecting further entries for it, but let other
    /// tracks continue.
    StopTrack,
    /// Skip over the decode error and keep indexing the track as if it
    /// had not happened.
    Ignore,
}

/// The engine code of each error-handling policy.
pub open spec fn spec_error_policy_code(policy: IndexErrorPolicy) -> int {
    match policy {
        IndexErrorPolicy::Abort => 0,
        IndexErrorPolicy::ClearTrack => 1,
        IndexErrorPolicy::StopTrack => 2,
        IndexErrorPolicy::Ignore => 3,
    }
}

/// The error-handling policy an engine code stands for, when the code is
/// one of the four defined values.
pub open spec fn spec_error_policy_of_code(code: int) -> Option<IndexErrorPolicy> {
    if code == 0 {
        Some(IndexErrorPolicy::Abort)
    } else if code == 1 {
        Some(IndexErrorPolicy::ClearTrack)
    } else if code == 2 {
        Some(IndexErrorPolicy::StopTrack)
    } else if code == 3 {
        Some(IndexErrorPolicy::Ignore)
    } else {
        None
    }
}

impl IndexErrorPolicy {
    /// Returns the engine integer code of this policy.
    pub fn code(self) -> (r: u8)
        ensures
            r == spec_error_policy_code(self),
    {
        match self {
            Self::Abort => 0,
            Self::ClearTrack => 1,
            Self::StopTrack => 2,
            Self::Ignore => 3,
        }
    }

    /// Builds a policy from its engine integer code; the four defined
    /// codes are accepted and every other code is rejected.
    pub fn new(code: u8) -> (r: Option<Self>)
        ensures
            r == spec_error_policy_of_code(code as int),
    {
        match code {
            0 => Some(Self::Abort),
            1 => Some(Self::ClearTrack),
            2 => Some(Self::StopTrack),
            3 => Some(Self::Ignore),
            _ => None,
        }
    }
}

/// The outbound and inbound policy code mappings invert each other.
pub proof fn lemma_error_policy_code_round_trip(policy: IndexErrorPolicy)
    ensures
        spec_error_policy_of_code(spec_error_policy_code(policy)) == Some(policy),
{
}

/// The mathematical content of an index: the error-handling policy in
/// effect when it was built, and the per-track data.
pub struct IndexView {
    /// The error-handling policy the index was built with.
    pub error_handling: IndexErrorPolicy,
    /// Per-track data, in container order.
    pub tracks: Seq<TrackState>,
}

/// True of the first position holding a track of the wanted type, if any:
/// the position is in range, matches, and nothing before it matches.
pub open spec fn spec_is_first_of_type(
    tracks: Seq<TrackState>,
    track_type: TrackType,
    i: int,
) -> bool {
    &&& 0 <= i < tracks.len()
    &&& tracks[i].track_type == track_type
    &&& forall|j: int| 0 <= j < i ==> tracks[j].track_type != track_type
}

/// True of the first position holding an indexed track of the wanted
/// type, if any.
pub open spec fn spec_is_first_indexed_of_type(
    tracks: Seq<TrackState>,
    track_type: TrackType,
    i: int,
) -> bool {
    &&& 0 <= i < tracks.len()
    &&& tracks[i].track_type == track_type
    &&& tracks[i].frames is Some
    &&& forall|j: int|
        0 <= j < i ==> !(tracks[j].track_type == track_type && tracks[j].frames is Some)
}

/// The best-effort compatibility relation between an index and a source:
/// same number of tracks, and the same track type at every position.
pub open spec fn spec_index_matches_source(index: IndexView, source: MediaSourceView) -> bool {
    &&& index.tracks.len() == source.tracks.len()
    &&& forall|i: int|
        0 <= i < index.tracks.len() ==> index.tracks[i].track_type == source.tracks[
            i
        ].track_type
}

/// The immutable, persistable artifact of an indexing run: per-track
/// frame metadata, the policy the run used, and, after `write_to_buffer`,
/// an owned serialization buffer.
pub struct Index {
    /// The error-handling policy the index was built with.
    pub error_handling: IndexErrorPolicy,
    /// Per-track data, in container order.
    pub tracks: Vec<Track>,
    /// The serialization buffer of the latest `write_to_buffer` call;
    /// empty before the first call.
    pub buffer: Vec<u8>,
}

impl View for Index {
    type V = IndexView;

    open spec fn view(&self) -> IndexView {
        IndexView {
            error_handling: self.error_handling,
            tracks: self.tracks@.map_values(|t: Track| t@),
        }
    }
}

impl Index {
    /// Reads a previously persisted index artifact back from the bytes of
    /// its file.  Pass `None` when the path lookup found no readable
    /// file; the constructor then reports `NotAFile` without further
    /// work.
    ///
    /// The artifact bytes are accepted exactly when they parse as one
    /// whole index artifact; a recognizable artifact with the wrong
    /// format version is reported as a version error, every other
    /// malformed input as a file-read error.
    pub fn new(index_file: Option<&[u8]>) -> (r: crate::error::Result<Index>)
        ensures
            index_file is None ==> r == Err::<Index, Error>(Error::NotAFile),
            index_file matches Some(b) ==> match crate::codec::spec_parse_index(b@) {
                Some(v) => r matches Ok(ix) && ix@ == v && ix.buffer@.len() == 0,
                None => r is Err && r != Err::<Index, Error>(Error::NotAFile),
            },
    {
        match index_file {
            Some(bytes) => Self::from_buffer(bytes),
            None => Err(Error::NotAFile),
        }
    }

    /// Reads an index artifact from an in-memory byte sequence.
    ///
    /// The bytes are accepted exactly when they parse as one whole index
    /// artifact; a recognizable artifact with the wrong format version is
    /// reported as a version error, every other malformed input as a
    /// file-read error.
    pub fn from_buffer(buffer: &[u8]) -> (r: crate::error::Result<Index>)
        ensures
            match crate::codec::spec_parse_index(buffer@) {
                Some(v) => r matches Ok(ix) && ix@ == v && ix.buffer@.len() == 0,
                None => r is Err,
            },
            r is Err ==> r == Err::<Index, Error>(
                if crate::codec::spec_version_mismatch(buffer@) {
                    Error::FFMS2(ErrorKind::Index, ErrorSubkind::Version)
                } else {
                    Error::FFMS2(ErrorKind::Index, ErrorSubkind::FileRead)
                },
            ),
    {
        match crate::codec::parse_index(buffer) {
            Ok((error_handling, tracks)) => Ok(
                Index { error_handling, tracks, buffer: Vec::new() },
            ),
            Err(e) => Err(e),
        }
    }

    /// Serializes this index into an internally owned buffer whose
    /// lifetime is tied to `self`, and returns it.  A second call
    /// replaces the previous buffer: only one serialization buffer exists
    /// at a time.
    pub fn write_to_buffer(&mut self) -> (r: crate::error::Result<&Vec<u8>>)
        ensures
            final(self)@ == old(self)@,
            final(self).buffer@ == crate::codec::spec_ser_index(old(self)@),
            r matches Ok(bytes) && bytes@ == crate::codec::spec_ser_index(old(self)@),
    {
        self.buffer = crate::codec::ser_index(self.error_handling, &self.tracks);
        Ok(&self.buffer)
    }

    /// Returns the number of tracks; served from the index itself without
    /// further scanning.
    pub fn tracks_count(&self) -> (r: usize)
        ensures
            r == self@.tracks.len(),
    {
        self.tracks.len()
    }

    /// Reports which error-handling policy was in effect when this index
    /// was built.
    pub fn indexer_error(&self) -> (r: IndexErrorPolicy)
        ensures
            r == self@.error_handling,
    {
        self.error_handling
    }

    /// Returns the number of the first track of the given type, or a
    /// track-handling error when no track has that type.
    pub fn first_track_of_type(&self, track_type: TrackType) -> (r: crate::error::Result<usize>)
        ensures
            r matches Ok(i) ==> spec_is_first_of_type(self@.tracks, track_type, i as int),
            r is Err ==> forall|j: int|
                0 <= j < self@.tracks.len() ==> self@.tracks[j].track_type != track_type,
            r is Err ==> r == Err::<usize, Error>(
                Error::FFMS2(ErrorKind::Track, ErrorSubkind::NotAvailable),
            ),
            (exists|j: int| 0 <= j < self@.tracks.len() && self@.tracks[j].track_type == track_type)
                <==> r is Ok,
    {
        let mut i: usize = 0;
        while i < self.tracks.len()
            invariant
                i <= self@.tracks.len(),
                forall|j: int| 0 <= j < i ==> self@.tracks[j].track_type != track_type,
            decreases self@.tracks.len() - i,
        {
            if self.tracks[i].track_type == track_type {
                assert(self@.tracks[i as int].track_type == track_type);
                return Ok(i);
            }
            assert(self@.tracks[i as int].track_type != track_type);
            i = i + 1;
        }
        Err(Error::FFMS2(ErrorKind::Track, ErrorSubkind::NotAvailable))
    }

    /// Returns the number of the first indexed track of the given type,
    /// or a track-handling error when no indexed track has that type.
    pub fn first_indexed_track_of_type(
        &self,
        track_type: TrackType,
    ) -> (r: crate::error::Result<usize>)
        ensures
            r matches Ok(i) ==> spec_is_first_indexed_of_type(self@.tracks, track_type, i as int),
            r is Err ==> forall|j: int|
                0 <= j < self@.tracks.len() ==> !(self@.tracks[j].track_type == track_type
                    && self@.tracks[j].frames is Some),
            r is Err ==> r == Err::<usize, Error>(
                Error::FFMS2(ErrorKind::Track, ErrorSubkind::NotAvailable),
            ),
            (exists|j: int|
                0 <= j < self@.tracks.len() && self@.tracks[j].track_type == track_type
                    && self@.tracks[j].frames is Some) <==> r is Ok,
    {
        let mut i: usize = 0;
        while i < self.tracks.len()
            invariant
                i <= self@.tracks.len(),
                forall|j: int|
                    0 <= j < i ==> !(self@.tracks[j].track_type == track_type && self@.tracks[
                        j
                    ].frames is Some),
            decreases self@.tracks.len() - i,
        {
            if self.tracks[i].track_type == track_type && self.tracks[i].frames.is_some() {
                assert(self@.tracks[i as int].track_type == track_type && self@.tracks[
                    i as int
                ].frames is Some);
                return Ok(i);
            }
            assert(!(self@.tracks[i as int].track_type == track_type && self@.tracks[
                i as int
            ].frames is Some));
            i = i + 1;
        }
        Err(Error::FFMS2(ErrorKind::Track, ErrorSubkind::NotAvailable))
    }

    /// Best-effort compatibility check between this index and a candidate
    /// source: the track count and every track type must agree.  Pass
    /// `None` when the path lookup found no readable file; the check then
    /// reports `NotAFile` without further work.
    pub fn belongs_to_file(&self, source: Option<&MediaSource>) -> (r: crate::error::Result<bool>)
        ensures
            source is None ==> r == Err::<bool, Error>(Error::NotAFile),
            source matches Some(s) ==> r == Ok::<bool, Error>(
                spec_index_matches_source(self@, s@),
            ),
    {
        let media = match source {
            Some(media) => media,
            None => {
                return Err(Error::NotAFile);
            },
        };
        if self.tracks.len() != media.tracks.len() {
            assert(self@.tracks.len() != media@.tracks.len());
            return Ok(false);
        }
        let mut i: usize = 0;
        while i < self.tracks.len()
            invariant
                source == Some(media),
                i <= self@.tracks.len(),
                self@.tracks.len() == media@.tracks.len(),
                forall|j: int|
                    0 <= j < i ==> self@.tracks[j].track_type == media@.tracks[j].track_type,
            decreases self@.tracks.len() - i,
        {
            if self.tracks[i].track_type != media.tracks[i].track_type {
                assert(self@.tracks[i as int].track_type != media@.tracks[i as int].track_type);
                return Ok(false);
            }
            assert(self@.tracks[i as int].track_type == media@.tracks[i as int].track_type);
            i = i + 1;
        }
        Ok(true)
    }
}

/// The progress-reporting protocol of an indexing run.
///
/// The scanning loop invokes `on_progress` synchronously and repeatedly
/// from the thread that called `do_indexing`: once before each track is
/// scanned, with the number of tracks already finished and the total, and
/// once after the last track.  A non-zero return value requests
/// cancellation of the run, which then fails with a cancellation error.
/// An implementor may be invoked zero or many times and carries its own
/// mutable state across invocations.
pub trait ProgressCallback {
    /// Receives one progress report; a non-zero return value requests
    /// cancellation of the indexing run.
    fn on_progress(&mut self, current: usize, total: usize) -> usize;
}

/// The do-nothing progress listener of a fresh `Indexer`: it never
/// requests cancellation.
pub struct NoProgress;

impl ProgressCallback for NoProgress {
    fn on_progress(&mut self, current: usize, total: usize) -> usize {
        0
    }
}

/// The mathematical content of one stream within an indexer: the source
/// stream and whether the run will index it.
pub struct IndexerTrackView {
    /// The source stream.
    pub source: SourceTrackView,
    /// Whether `do_indexing` will collect frames for this stream.
    pub enabled: bool,
}

/// One stream within an indexer.
pub struct IndexerTrack {
    /// The source stream.
    pub source: SourceTrack,
    /// Whether `do_indexing` will collect frames for this stream.
    pub enabled: bool,
}

impl View for IndexerTrack {
    type V = IndexerTrackView;

    open spec fn view(&self) -> IndexerTrackView {
        IndexerTrackView { source: self.source@, enabled: self.enabled }
    }
}

/// The mathematical content of an indexer, apart from its listener.
pub struct IndexerView {
    /// Container format name.
    pub format_name: Seq<char>,
    /// The streams of the source, each with its enablement.
    pub tracks: Seq<IndexerTrackView>,
    /// The demuxer options recorded at construction, as key/value pairs.
    pub options: Seq<(Seq<char>, Seq<char>)>,
    /// Whether cancellation has been requested.
    pub cancelled: bool,
}

/// The builder/scanner object of the two-phase indexing protocol.
///
/// An indexer is created from a source description, configured through
/// the per-track and per-type enablement calls and an optional progress
/// listener, and finally consumed by `do_indexing`, which produces an
/// immutable [`Index`].  Consumption is enforced by ownership: after
/// `do_indexing` returns, no operation is possible on the indexer value.
pub struct Indexer<L: ProgressCallback> {
    /// Container format name.
    pub format_name: String,
    /// The streams of the source, each with its enablement; every track
    /// starts enabled.
    pub tracks: Vec<IndexerTrack>,
    /// The demuxer options recorded at construction.
    pub demuxer_options: Vec<(String, String)>,
    /// Whether cancellation has been requested.
    pub cancelled: bool,
    /// The registered progress listener, if any.
    pub listener: Option<L>,
}

impl<L: ProgressCallback> View for Indexer<L> {
    type V = IndexerView;

    open spec fn view(&self) -> IndexerView {
        IndexerView {
            format_name: self.format_name@,
            tracks: self.tracks@.map_values(|t: IndexerTrack| t@),
            options: self.demuxer_options@.map_values(|p: (String, String)| (p.0@, p.1@)),
            cancelled: self.cancelled,
        }
    }
}

/// True when the indexer's streams are exactly the source's streams, in
/// order, each enabled.
pub open spec fn spec_tracks_of_source(
    tracks: Seq<IndexerTrackView>,
    source: MediaSourceView,
) -> bool {
    &&& tracks.len() == source.tracks.len()
    &&& forall|i: int|
        0 <= i < tracks.len() ==> #[trigger] tracks[i] == IndexerTrackView {
            source: source.tracks[i],
            enabled: true,
        }
}

impl Indexer<NoProgress> {
    /// Creates an indexer from a source description.  Pass `None` when
    /// the path lookup found no readable file; the constructor then
    /// reports `NotAFile` without further work.
    ///
    /// Every track starts enabled, no cancellation is pending, and no
    /// progress listener is registered.
    pub fn new(source: Option<MediaSource>) -> (r: crate::error::Result<Indexer<NoProgress>>)
        ensures
            source is None ==> r == Err::<Indexer<NoProgress>, Error>(Error::NotAFile),
            source matches Some(src) ==> (r matches Ok(indexer) && indexer@.format_name
                == src@.format_name && spec_tracks_of_source(indexer@.tracks, src@)
                && indexer@.options.len() == 0 && !indexer@.cancelled
                && indexer.listener is None),
    {
        Self::with_demuxer_options(source, Vec::new())
    }

    /// Creates an indexer from a source description, recording
    /// container/demuxer-specific key/value options.  Pass `None` for
    /// the source when the path lookup found no readable file; the
    /// constructor then reports `NotAFile` without further work.
    pub fn with_demuxer_options(source: Option<MediaSource>, options: Vec<(String, String)>) -> (r:
        crate::error::Result<Indexer<NoProgress>>)
        ensures
            source is None ==> r == Err::<Indexer<NoProgress>, Error>(Error::NotAFile),
            source matches Some(src) ==> (r matches Ok(indexer) && indexer@.format_name
                == src@.format_name && spec_tracks_of_source(indexer@.tracks, src@)
                && indexer@.options == options@.map_values(|p: (String, String)| (p.0@, p.1@))
                && !indexer@.cancelled && indexer.listener is None),
    {
        let media = match source {
            Some(media) => media,
            None => {
                return Err(Error::NotAFile);
            },
        };
        let MediaSource { format_name, tracks: source_tracks } = media;
        let ghost src_views = source_tracks@.map_values(|t: SourceTrack| t@);
        let mut tracks: Vec<IndexerTrack> = Vec::new();
        let mut i: usize = 0;
        // Move the source streams into indexer streams, one at a time,
        // keeping the original order.
        while i < source_tracks.len()
            invariant
                tracks@.len() == i,
                i <= source_tracks@.len(),
                source_tracks@.map_values(|t: SourceTrack| t@) == src_views,
                forall|j: int|
                    0 <= j < i ==> #[trigger] tracks@[j]@ == (IndexerTrackView {
                        source: src_views[j],
                        enabled: true,
                    }),
            decreases source_tracks@.len() - i,
        {
            let source = source_tracks[i].duplicate();
            proof {
                assert(source@ == src_views[i as int]);
            }
            tracks.push(IndexerTrack { source, enabled: true });
            i = i + 1;
        }
        Ok(
            Indexer {
                format_name,
                tracks,
                demuxer_options: options,
                cancelled: false,
                listener: None,
            },
        )
    }
}

impl<L: ProgressCallback> Indexer<L> {
    /// Returns the number of tracks in the source; served from the cached
    /// track list captured at construction.
    pub fn tracks_count(&self) -> (r: usize)
        ensures
            r == self@.tracks.len(),
    {
        self.tracks.len()
    }

    /// Returns the source's container format name.
    pub fn format_name(&self) -> (r: crate::error::Result<String>)
        ensures
            r matches Ok(name) && name@ == self@.format_name,
    {
        Ok(self.format_name.clone())
    }

    /// Returns the type of the given track, or `WrongTrack` when the
    /// track number is not below the track count.
    pub fn track_type(&self, track: usize) -> (r: crate::error::Result<TrackType>)
        ensures
            track < self@.tracks.len() ==> r == Ok::<TrackType, Error>(
                self@.tracks[track as int].source.track_type,
            ),
            track >= self@.tracks.len() ==> r == Err::<TrackType, Error>(Error::WrongTrack),
    {
        if track >= self.tracks.len() {
            return Err(Error::WrongTrack);
        }
        let r = self.tracks[track].source.track_type;
        proof {
            assert(r == self@.tracks[track as int].source.track_type);
        }
        Ok(r)
    }

    /// Returns the codec name of the given track, or `WrongTrack` when
    /// the track number is not below the track count.
    pub fn codec_name(&self, track: usize) -> (r: crate::error::Result<String>)
        ensures
            track < self@.tracks.len() ==> (r matches Ok(name) && name@ == self@.tracks[
                track as int
            ].source.codec_name),
            track >= self@.tracks.len() ==> r == Err::<String, Error>(Error::WrongTrack),
    {
        if track >= self.tracks.len() {
            return Err(Error::WrongTrack);
        }
        let name = self.tracks[track].source.codec_name.clone();
        proof {
            assert(name@ == self@.tracks[track as int].source.codec_name);
        }
        Ok(name)
    }

    /// Sets the enablement of one track; `WrongTrack` when the track
    /// number is out of range, in which case nothing changes.
    fn set_track_enabled(&mut self, track: usize, enabled: bool) -> (r: crate::error::Result<()>)
        ensures
            track >= old(self)@.tracks.len() ==> r == Err::<(), Error>(Error::WrongTrack) && *final(self) == *old(self),
            track < old(self)@.tracks.len() ==> r == Ok::<(), Error>(()) && final(self)@.tracks
                == old(self)@.tracks.update(
                track as int,
                IndexerTrackView {
                    source: old(self)@.tracks[track as int].source,
                    enabled,
                },
            ),
            final(self)@.format_name == old(self)@.format_name,
            final(self)@.options == old(self)@.options,
            final(self)@.cancelled == old(self)@.cancelled,
            final(self).listener == old(self).listener,
    {
        if track >= self.tracks.len() {
            return Err(Error::WrongTrack);
        }
        self.tracks[track].enabled = enabled;
        proof {
            assert(self@.tracks =~= old(self)@.tracks.update(
                track as int,
                IndexerTrackView {
                    source: old(self)@.tracks[track as int].source,
                    enabled,
                },
            ));
        }
        Ok(())
    }

    /// Enables indexing of the given track; `WrongTrack` when the track
    /// number is not below the track count, in which case nothing
    /// changes.
    pub fn enable_track(&mut self, track: usize) -> (r: crate::error::Result<()>)
        ensures
            track >= old(self)@.tracks.len() ==> r == Err::<(), Error>(Error::WrongTrack) && *final(self) == *old(self),
            track < old(self)@.tracks.len() ==> r == Ok::<(), Error>(()) && final(self)@.tracks
                == old(self)@.tracks.update(
                track as int,
                IndexerTrackView {
                    source: old(self)@.tracks[track as int].source,
                    enabled: true,
                },
            ),
            final(self)@.format_name == old(self)@.format_name,
            final(self)@.options == old(self)@.options,
            final(self)@.cancelled == old(self)@.cancelled,
            final(self).listener == old(self).listener,
    {
        self.set_track_enabled(track, true)
    }

    /// Disables indexing of the given track; `WrongTrack` when the track
    /// number is not below the track count, in which case nothing
    /// changes.
    pub fn disable_track(&mut self, track: usize) -> (r: crate::error::Result<()>)
        ensures
            track >= old(self)@.tracks.len() ==> r == Err::<(), Error>(Error::WrongTrack) && *final(self) == *old(self),
            track < old(self)@.tracks.len() ==> r == Ok::<(), Error>(()) && final(self)@.tracks
                == old(self)@.tracks.update(
                track as int,
                IndexerTrackView {
                    source: old(self)@.tracks[track as int].source,
                    enabled: false,
                },
            ),
            final(self)@.format_name == old(self)@.format_name,
            final(self)@.options == old(self)@.options,
            final(self)@.cancelled == old(self)@.cancelled,
            final(self).listener == old(self).listener,
    {
        self.set_track_enabled(track, false)
    }

    /// Sets the enablement of every track of one type; `UnknownTrackType`
    /// when the type is `Unknown`, in which case nothing changes,
    /// whatever the internal state of the indexer.
    fn set_track_type_enabled(&mut self, track_type: TrackType, enabled: bool) -> (r:
        crate::error::Result<()>)
        ensures
            track_type == TrackType::Unknown ==> r == Err::<(), Error>(Error::UnknownTrackType)
                && *final(self) == *old(self),
            track_type != TrackType::Unknown ==> r == Ok::<(), Error>(()) && final(self)@.tracks
                =~= Seq::new(
                old(self)@.tracks.len(),
                |i: int|
                    IndexerTrackView {
                        source: old(self)@.tracks[i].source,
                        enabled: if old(self)@.tracks[i].source.track_type == track_type {
                            enabled
                        } else {
                            old(self)@.tracks[i].enabled
                        },
                    },
            ),
            final(self)@.format_name == old(self)@.format_name,
            final(self)@.options == old(self)@.options,
            final(self)@.cancelled == old(self)@.cancelled,
            final(self).listener == old(self).listener,
    {
        if let TrackType::Unknown = track_type {
            return Err(Error::UnknownTrackType);
        }
        let mut i: usize = 0;
        while i < self.tracks.len()
            invariant
                i <= self@.tracks.len(),
                self@.tracks.len() == old(self)@.tracks.len(),
                self.format_name == old(self).format_name,
                self.demuxer_options == old(self).demuxer_options,
                self.cancelled == old(self).cancelled,
                self.listener == old(self).listener,
                forall|j: int|
                    i <= j < self@.tracks.len() ==> #[trigger] self@.tracks[j] == old(
                        self,
                    )@.tracks[j],
                forall|j: int|
                    0 <= j < i ==> #[trigger] self@.tracks[j] == (IndexerTrackView {
                        source: old(self)@.tracks[j].source,
                        enabled: if old(self)@.tracks[j].source.track_type == track_type {
                            enabled
                        } else {
                            old(self)@.tracks[j].enabled
                        },
                    }),
            decreases self@.tracks.len() - i,
        {
            let ghost pre = *self;
            if self.tracks[i].source.track_type == track_type {
                self.tracks[i].enabled = enabled;
                proof {
                    assert(self.tracks@[i as int].source == pre.tracks@[i as int].source);
                    assert(self.tracks@[i as int].enabled == enabled);
                    assert(self@.tracks[i as int].source == pre@.tracks[i as int].source);
                    assert(pre@.tracks[i as int] == old(self)@.tracks[i as int]);
                    assert(self@.tracks[i as int] == (IndexerTrackView {
                        source: old(self)@.tracks[i as int].source,
                        enabled,
                    }));
                }
            } else {
                proof {
                    assert(*self == pre);
                    assert(self@.tracks[i as int] == old(self)@.tracks[i as int]);
                }
            }
            proof {
                assert forall|j: int|
                    0 <= j < self@.tracks.len() && j != i implies #[trigger] self@.tracks[j]
                    == pre@.tracks[j] by {
                    assert(self.tracks@[j] == pre.tracks@[j]);
                }
            }
            i = i + 1;
            proof {
                assert forall|j: int|
                    i <= j < self@.tracks.len() implies #[trigger] self@.tracks[j] == old(
                    self,
                )@.tracks[j] by {
                    assert(self@.tracks[j] == pre@.tracks[j]);
                    assert(pre@.tracks[j] == old(self)@.tracks[j]);
                }
                assert forall|j: int|
                    0 <= j < i implies #[trigger] self@.tracks[j] == (IndexerTrackView {
                    source: old(self)@.tracks[j].source,
                    enabled: if old(self)@.tracks[j].source.track_type == track_type {
                        enabled
                    } else {
                        old(self)@.tracks[j].enabled
                    },
                }) by {
                    if j < i - 1 {
                        assert(self@.tracks[j] == pre@.tracks[j]);
                    }
                }
            }
        }
        Ok(())
    }

    /// Enables indexing of every track of the given type; rejects the
    /// `Unknown` type with `UnknownTrackType`, whatever the internal
    /// state of the indexer, since enabling an unknown stream kind has no
    /// defined meaning.
    pub fn enable_track_type(&mut self, track_type: TrackType) -> (r: crate::error::Result<()>)
        ensures
            track_type == TrackType::Unknown ==> r == Err::<(), Error>(Error::UnknownTrackType)
                && *final(self) == *old(self),
            track_type != TrackType::Unknown ==> r == Ok::<(), Error>(()) && final(self)@.tracks
                =~= Seq::new(
                old(self)@.tracks.len(),
                |i: int|
                    IndexerTrackView {
                        source: old(self)@.tracks[i].source,
                        enabled: if old(self)@.tracks[i].source.track_type == track_type {
                            true
                        } else {
                            old(self)@.tracks[i].enabled
                        },
                    },
            ),
            final(self)@.format_name == old(self)@.format_name,
            final(self)@.options == old(self)@.options,
            final(self)@.cancelled == old(self)@.cancelled,
            final(self).listener == old(self).listener,
    {
        self.set_track_type_enabled(track_type, true)
    }

    /// Disables indexing of every track of the given type; rejects the
    /// `Unknown` type with `UnknownTrackType`, whatever the internal
    /// state of the indexer.
    pub fn disable_track_type(&mut self, track_type: TrackType) -> (r: crate::error::Result<()>)
        ensures
            track_type == TrackType::Unknown ==> r == Err::<(), Error>(Error::UnknownTrackType)
                && *final(self) == *old(self),
            track_type != TrackType::Unknown ==> r == Ok::<(), Error>(()) && final(self)@.tracks
                =~= Seq::new(
                old(self)@.tracks.len(),
                |i: int|
                    IndexerTrackView {
                        source: old(self)@.tracks[i].source,
                        enabled: if old(self)@.tracks[i].source.track_type == track_type {
                            false
                        } else {
                            old(self)@.tracks[i].enabled
                        },
                    },
            ),
            final(self)@.format_name == old(self)@.format_name,
            final(self)@.options == old(self)@.options,
            final(self)@.cancelled == old(self)@.cancelled,
            final(self).listener == old(self).listener,
    {
        self.set_track_type_enabled(track_type, false)
    }

    /// Requests that an in-progress or not-yet-started scan stop.
    ///
    /// Idempotent: however often it is called, and whether or not a scan
    /// has started, the indexer is left in a state where `do_indexing`
    /// reports a cancellation error.
    pub fn cancel(&mut self)
        ensures
            final(self)@.cancelled,
            final(self)@.tracks == old(self)@.tracks,
            final(self)@.format_name == old(self)@.format_name,
            final(self)@.options == old(self)@.options,
            final(self).listener == old(self).listener,
    {
        self.cancelled = true;
    }

    /// Registers a progress listener, which the scan of `do_indexing`
    /// will invoke as [`ProgressCallback`] describes.  Registration
    /// replaces any previously registered listener.
    ///
    /// The listener is owned by the indexer from here on: it lives
    /// exactly as long as the indexer value and is released exactly once,
    /// when the indexer is consumed or dropped.
    pub fn progress_callback<M: ProgressCallback>(self, callback: M) -> (r: Indexer<M>)
        ensures
            r@.format_name == self@.format_name,
            r@.tracks == self@.tracks,
            r@.options == self@.options,
            r@.cancelled == self@.cancelled,
            r.listener == Some(callback),
    {
        Indexer {
            format_name: self.format_name,
            tracks: self.tracks,
            demuxer_options: self.demuxer_options,
            cancelled: self.cancelled,
            listener: Some(callback),
        }
    }
}

// ---------------------------------------------------------------------
// The indexing scan.
// ---------------------------------------------------------------------

/// The frame metadata recorded for one scanned source frame.
pub open spec fn spec_frame_info(f: crate::source::SourceFrame) -> FrameInfo {
    FrameInfo {
        pts: f.pts,
        repeat_picture: f.repeat_picture,
        keyframe: f.keyframe,
        original_pts: f.original_pts,
    }
}

/// The metadata of every frame of a stream, in order.
pub open spec fn spec_all_infos(frames: Seq<crate::source::SourceFrame>) -> Seq<FrameInfo> {
    frames.map_values(|f: crate::source::SourceFrame| spec_frame_info(f))
}

/// Whether any frame of the stream fails to decode.
pub open spec fn spec_has_corrupt(frames: Seq<crate::source::SourceFrame>) -> bool {
    exists|i: int| 0 <= i < frames.len() && frames[i].corrupt
}

/// What an `Ignore` scan keeps: every decodable frame, in order, with
/// the corrupt ones skipped.
pub open spec fn spec_ignore_scan(frames: Seq<crate::source::SourceFrame>) -> Seq<FrameInfo>
    decreases frames.len(),
{
    if frames.len() == 0 {
        Seq::empty()
    } else if frames.first().corrupt {
        spec_ignore_scan(frames.drop_first())
    } else {
        seq![spec_frame_info(frames.first())] + spec_ignore_scan(frames.drop_first())
    }
}

/// What a `StopTrack` scan keeps: every frame before the first corrupt
/// one, in order.
pub open spec fn spec_stop_scan(frames: Seq<crate::source::SourceFrame>) -> Seq<FrameInfo>
    decreases frames.len(),
{
    if frames.len() == 0 {
        Seq::empty()
    } else if frames.first().corrupt {
        Seq::empty()
    } else {
        seq![spec_frame_info(frames.first())] + spec_stop_scan(frames.drop_first())
    }
}

/// What a scan of one stream keeps under each error-handling policy.
/// Under `Abort` the run fails instead whenever a corrupt frame exists on
/// an enabled stream, so the `Abort` value only matters for streams
/// without corrupt frames, where every frame is kept.
pub open spec fn spec_track_scan(
    frames: Seq<crate::source::SourceFrame>,
    policy: IndexErrorPolicy,
) -> Seq<FrameInfo> {
    match policy {
        IndexErrorPolicy::Ignore => spec_ignore_scan(frames),
        IndexErrorPolicy::StopTrack => spec_stop_scan(frames),
        IndexErrorPolicy::ClearTrack => if spec_has_corrupt(frames) {
            Seq::empty()
        } else {
            spec_all_infos(frames)
        },
        IndexErrorPolicy::Abort => spec_all_infos(frames),
    }
}

/// The index track produced for one stream: type and timebase carried
/// over, and frames collected exactly for an enabled stream.
pub open spec fn spec_indexed_track(t: IndexerTrackView, policy: IndexErrorPolicy) -> TrackState {
    TrackState {
        track_type: t.source.track_type,
        time_base: t.source.time_base,
        frames: if t.enabled {
            Some(spec_track_scan(t.source.frames, policy))
        } else {
            None
        },
    }
}

/// The content of the index a completed scan produces.
pub open spec fn spec_scan_index(
    tracks: Seq<IndexerTrackView>,
    policy: IndexErrorPolicy,
) -> IndexView {
    IndexView {
        error_handling: policy,
        tracks: Seq::new(tracks.len(), |i: int| spec_indexed_track(tracks[i], policy)),
    }
}

/// Whether an `Abort` run fails: some enabled stream has a corrupt frame.
pub open spec fn spec_abort_hit(tracks: Seq<IndexerTrackView>) -> bool {
    exists|i: int| 0 <= i < tracks.len() && tracks[i].enabled && spec_has_corrupt(
        tracks[i].source.frames,
    )
}

/// The error a cancelled indexing run reports.
pub open spec fn spec_cancel_error() -> Error {
    Error::FFMS2(ErrorKind::Cancelled, ErrorSubkind::UserCaused)
}

/// The error an aborted indexing run reports.
pub open spec fn spec_abort_error() -> Error {
    Error::FFMS2(ErrorKind::Indexing, ErrorSubkind::Codec)
}

/// `spec_ignore_scan` grows one frame at a time.
proof fn lemma_ignore_scan_snoc(frames: Seq<crate::source::SourceFrame>, f: crate::source::SourceFrame)
    ensures
        spec_ignore_scan(frames.push(f)) == spec_ignore_scan(frames) + (if f.corrupt {
            Seq::<FrameInfo>::empty()
        } else {
            seq![spec_frame_info(f)]
        }),
    decreases frames.len(),
{
    let tail = if f.corrupt {
        Seq::<FrameInfo>::empty()
    } else {
        seq![spec_frame_info(f)]
    };
    if frames.len() == 0 {
        assert(frames.push(f).drop_first() =~= Seq::<crate::source::SourceFrame>::empty());
        assert(frames =~= Seq::<crate::source::SourceFrame>::empty());
        assert(spec_ignore_scan(frames.push(f)) =~= spec_ignore_scan(frames) + tail);
    } else {
        assert(frames.push(f).first() == frames.first());
        assert(frames.push(f).drop_first() =~= frames.drop_first().push(f));
        lemma_ignore_scan_snoc(frames.drop_first(), f);
        assert(spec_ignore_scan(frames.push(f)) =~= spec_ignore_scan(frames) + tail);
    }
}

/// When every frame before position `i` is decodable and the frame at
/// `i`, if any, is corrupt, a `StopTrack` scan keeps exactly the frames
/// before `i`.
proof fn lemma_stop_scan_at(frames: Seq<crate::source::SourceFrame>, i: int)
    requires
        0 <= i <= frames.len(),
        forall|j: int| 0 <= j < i ==> !(#[trigger] frames[j]).corrupt,
        i < frames.len() ==> frames[i].corrupt,
    ensures
        spec_stop_scan(frames) == spec_all_infos(frames.take(i)),
    decreases frames.len(),
{
    if frames.len() == 0 {
        assert(frames.take(i) =~= frames);
        assert(spec_all_infos(frames) =~= Seq::<FrameInfo>::empty());
    } else if i == 0 {
        assert(frames.take(0) =~= Seq::<crate::source::SourceFrame>::empty());
        assert(spec_all_infos(frames.take(0)) =~= Seq::<FrameInfo>::empty());
    } else {
        assert(!frames.first().corrupt);
        let rest = frames.drop_first();
        assert(forall|j: int| 0 <= j < i - 1 ==> !(#[trigger] rest[j]).corrupt);
        lemma_stop_scan_at(rest, i - 1);
        assert(frames.take(i) =~= seq![frames.first()] + rest.take(i - 1));
        assert(spec_all_infos(frames.take(i)) =~= seq![spec_frame_info(frames.first())]
            + spec_all_infos(rest.take(i - 1)));
    }
}

/// The metadata of every frame of a stream, computed by a scan.
fn scan_all(frames: &Vec<crate::source::SourceFrame>) -> (r: Vec<FrameInfo>)
    ensures
        r@ == spec_all_infos(frames@),
{
    let mut out: Vec<FrameInfo> = Vec::new();
    let mut i: usize = 0;
    while i < frames.len()
        invariant
            i <= frames@.len(),
            out@ =~= spec_all_infos(frames@.take(i as int)),
        decreases frames@.len() - i,
    {
        let f = frames[i];
        out.push(FrameInfo {
            pts: f.pts,
            repeat_picture: f.repeat_picture,
            keyframe: f.keyframe,
            original_pts: f.original_pts,
        });
        proof {
            assert(out@ =~= spec_all_infos(frames@.take(i + 1 as int)));
        }
        i = i + 1;
    }
    proof {
        assert(frames@.take(frames@.len() as int) =~= frames@);
        assert(out@ =~= spec_all_infos(frames@));
    }
    out
}

/// Whether any frame of the stream is corrupt, computed by a scan.
fn has_corrupt(frames: &Vec<crate::source::SourceFrame>) -> (r: bool)
    ensures
        r == spec_has_corrupt(frames@),
{
    let mut i: usize = 0;
    while i < frames.len()
        invariant
            i <= frames@.len(),
            forall|j: int| 0 <= j < i ==> !(#[trigger] frames@[j]).corrupt,
        decreases frames@.len() - i,
    {
        if frames[i].corrupt {
            return true;
        }
        i = i + 1;
    }
    false
}

/// The frames an `Ignore` scan keeps.
fn scan_ignore(frames: &Vec<crate::source::SourceFrame>) -> (r: Vec<FrameInfo>)
    ensures
        r@ == spec_ignore_scan(frames@),
{
    let mut out: Vec<FrameInfo> = Vec::new();
    let mut i: usize = 0;
    while i < frames.len()
        invariant
            i <= frames@.len(),
            out@ == spec_ignore_scan(frames@.take(i as int)),
        decreases frames@.len() - i,
    {
        let f = frames[i];
        if !f.corrupt {
            out.push(FrameInfo {
                pts: f.pts,
                repeat_picture: f.repeat_picture,
                keyframe: f.keyframe,
                original_pts: f.original_pts,
            });
        }
        proof {
            lemma_ignore_scan_snoc(frames@.take(i as int), frames@[i as int]);
            assert(frames@.take(i as int).push(frames@[i as int]) =~= frames@.take(i + 1 as int));
            assert(out@ =~= spec_ignore_scan(frames@.take(i + 1 as int)));
        }
        i = i + 1;
    }
    proof {
        assert(frames@.take(frames@.len() as int) =~= frames@);
    }
    out
}

/// The frames a `StopTrack` scan keeps.
fn scan_stop(frames: &Vec<crate::source::SourceFrame>) -> (r: Vec<FrameInfo>)
    ensures
        r@ == spec_stop_scan(frames@),
{
    let mut out: Vec<FrameInfo> = Vec::new();
    let mut i: usize = 0;
    while i < frames.len()
        invariant
            i <= frames@.len(),
            forall|j: int| 0 <= j < i ==> !(#[trigger] frames@[j]).corrupt,
            out@ =~= spec_all_infos(frames@.take(i as int)),
        decreases frames@.len() - i,
    {
        let f = frames[i];
        if f.corrupt {
            proof {
                lemma_stop_scan_at(frames@, i as int);
            }
            return out;
        }
        out.push(FrameInfo {
            pts: f.pts,
            repeat_picture: f.repeat_picture,
            keyframe: f.keyframe,
            original_pts: f.original_pts,
        });
        proof {
            assert(out@ =~= spec_all_infos(frames@.take(i + 1 as int)));
        }
        i = i + 1;
    }
    proof {
        lemma_stop_scan_at(frames@, frames@.len() as int);
        assert(frames@.take(frames@.len() as int) =~= frames@);
    }
    out
}

impl<L: ProgressCallback> Indexer<L> {
    /// Runs the scan to completion or failure, consuming the indexer; the
    /// underlying scanning resources are released on every path, success
    /// or failure, so no further operation is possible on this value.
    ///
    /// A run on a cancelled indexer, and a run whose progress listener
    /// returns non-zero, fail with a cancellation error.  Under the
    /// `Abort` policy, a corrupt frame on any enabled track fails the run
    /// with an indexing error.  Every completed run returns exactly the
    /// index that `spec_scan_index` describes: per enabled track the
    /// frames its policy keeps, and disabled tracks left un-indexed.
    pub fn do_indexing(self, error_handling: IndexErrorPolicy) -> (r: crate::error::Result<Index>)
        ensures
            self@.cancelled ==> r == Err::<Index, Error>(spec_cancel_error()),
            r matches Ok(ix) ==> !self@.cancelled && ix@ == spec_scan_index(
                self@.tracks,
                error_handling,
            ) && ix.buffer@.len() == 0 && !(error_handling == IndexErrorPolicy::Abort
                && spec_abort_hit(self@.tracks)),
            r matches Err(e) ==> e == spec_cancel_error() || (e == spec_abort_error()
                && error_handling == IndexErrorPolicy::Abort && spec_abort_hit(self@.tracks)),
            (!self@.cancelled && self.listener is None) ==> (r is Ok <==> !(error_handling
                == IndexErrorPolicy::Abort && spec_abort_hit(self@.tracks))),
    {
        let Indexer { format_name: _, tracks, demuxer_options: _, cancelled, listener } = self;
        let ghost views = tracks@.map_values(|t: IndexerTrack| t@);
        if cancelled {
            return Err(Error::FFMS2(ErrorKind::Cancelled, ErrorSubkind::UserCaused));
        }
        let mut listener = listener;
        let total = tracks.len();
        let mut out: Vec<Track> = Vec::new();
        let mut i: usize = 0;
        while i < tracks.len()
            invariant
                i <= tracks@.len(),
                total == tracks@.len(),
                views == tracks@.map_values(|t: IndexerTrack| t@),
                views == self@.tracks,
                !self@.cancelled,
                self.listener is Some <==> listener is Some,
                out@.len() == i,
                forall|j: int|
                    0 <= j < i ==> #[trigger] out@[j]@ == spec_indexed_track(
                        views[j],
                        error_handling,
                    ),
                error_handling == IndexErrorPolicy::Abort ==> forall|j: int|
                    0 <= j < i ==> !((#[trigger] views[j]).enabled && spec_has_corrupt(
                        views[j].source.frames,
                    )),
            decreases tracks@.len() - i,
        {
            match &mut listener {
                Some(l) => {
                    let stop = l.on_progress(i, total);
                    if stop != 0 {
                        return Err(Error::FFMS2(ErrorKind::Cancelled, ErrorSubkind::UserCaused));
                    }
                },
                None => {},
            }
            let track = &tracks[i];
            proof {
                assert(track@ == views[i as int]);
            }
            if track.enabled {
                let corrupt_here = has_corrupt(&track.source.frames);
                let frames = match error_handling {
                    IndexErrorPolicy::Abort => {
                        if corrupt_here {
                            proof {
                                assert(views[i as int].enabled && spec_has_corrupt(
                                    views[i as int].source.frames,
                                ));
                                assert(spec_abort_hit(views));
                            }
                            return Err(Error::FFMS2(ErrorKind::Indexing, ErrorSubkind::Codec));
                        }
                        scan_all(&track.source.frames)
                    },
                    IndexErrorPolicy::ClearTrack => {
                        if corrupt_here {
                            Vec::new()
                        } else {
                            scan_all(&track.source.frames)
                        }
                    },
                    IndexErrorPolicy::StopTrack => scan_stop(&track.source.frames),
                    IndexErrorPolicy::Ignore => scan_ignore(&track.source.frames),
                };
                proof {
                    assert(frames@ == spec_track_scan(views[i as int].source.frames, error_handling));
                }
                out.push(
                    Track {
                        track_type: track.source.track_type,
                        time_base: track.source.time_base,
                        frames: Some(frames),
                    },
                );
                proof {
                    assert(out@[i as int]@ == spec_indexed_track(views[i as int], error_handling));
                }
            } else {
                out.push(
                    Track {
                        track_type: track.source.track_type,
                        time_base: track.source.time_base,
                        frames: None,
                    },
                );
                proof {
                    assert(out@[i as int]@ == spec_indexed_track(views[i as int], error_handling));
                }
            }
            i = i + 1;
        }
        match &mut listener {
            Some(l) => {
                let stop = l.on_progress(total, total);
                if stop != 0 {
                    return Err(Error::FFMS2(ErrorKind::Cancelled, ErrorSubkind::UserCaused));
                }
            },
            None => {},
        }
        let index = Index { error_handling, tracks: out, buffer: Vec::new() };
        proof {
            assert(index@.tracks =~= spec_scan_index(self@.tracks, error_handling).tracks);
            assert(index@ == spec_scan_index(self@.tracks, error_handling));
            if error_handling == IndexErrorPolicy::Abort {
                assert(!spec_abort_hit(self@.tracks));
            }
        }
        Ok(index)
    }
}

} // verus!
