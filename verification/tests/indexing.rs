use std::cell::Cell;
use std::rc::Rc;

use ffms2::error::{Error, ErrorKind, ErrorSubkind};
use ffms2::index::{IndexErrorPolicy, Indexer, ProgressCallback};
use ffms2::source::{MediaSource, SourceFrame, SourceTrack};
use ffms2::track::{Track, TrackTimebase, TrackType};

fn frame(pts: u64, keyframe: bool) -> SourceFrame {
    SourceFrame {
        pts,
        repeat_picture: 0,
        keyframe,
        original_pts: pts as usize,
        corrupt: false,
    }
}

fn corrupt_frame(pts: u64) -> SourceFrame {
    SourceFrame {
        pts,
        repeat_picture: 0,
        keyframe: false,
        original_pts: pts as usize,
        corrupt: true,
    }
}

fn track(track_type: TrackType, codec: &str, frames: Vec<SourceFrame>) -> SourceTrack {
    SourceTrack {
        track_type,
        codec_name: codec.to_string(),
        time_base: TrackTimebase {
            numerator: 1,
            denominator: 1,
        },
        frames,
    }
}

/// A ten-track source: two video tracks, then eight audio tracks.
fn ten_track_source() -> MediaSource {
    let mut tracks = Vec::new();
    for v in 0..2 {
        tracks.push(track(
            TrackType::Video,
            "h264",
            vec![frame(v, true), frame(v + 10, false), frame(v + 20, false)],
        ));
    }
    for a in 0..8 {
        tracks.push(track(TrackType::Audio, "aac", vec![frame(a, true), frame(a + 5, true)]));
    }
    MediaSource {
        format_name: "matroska".to_string(),
        tracks,
    }
}

#[test]
fn indexing_ten_tracks_without_audio() {
    let mut indexer = Indexer::new(Some(ten_track_source())).unwrap();
    assert_eq!(indexer.tracks_count(), 10);
    // The audio bitmask of zero disables every audio track.
    indexer.disable_track_type(TrackType::Audio).unwrap();
    let index = indexer.do_indexing(IndexErrorPolicy::Abort).unwrap();
    assert_eq!(index.tracks_count(), 10);
    assert_eq!(index.first_track_of_type(TrackType::Video).unwrap(), 0);
    let audio_track = Track::from_index(&index, 5).unwrap();
    assert!(audio_track.frames_count().is_err());
    let video_track = Track::from_index(&index, 0).unwrap();
    assert!(video_track.frames_count().unwrap() > 0);
}

#[test]
fn indexer_construction_without_file() {
    assert_eq!(Indexer::new(None).err(), Some(Error::NotAFile));
}

#[test]
fn range_validation_on_indexer() {
    let mut indexer = Indexer::new(Some(ten_track_source())).unwrap();
    assert_eq!(indexer.enable_track(10), Err(Error::WrongTrack));
    assert_eq!(indexer.disable_track(10), Err(Error::WrongTrack));
    assert_eq!(indexer.track_type(10), Err(Error::WrongTrack));
    assert_eq!(indexer.codec_name(10).err(), Some(Error::WrongTrack));
    assert_eq!(indexer.enable_track(9), Ok(()));
    assert_eq!(indexer.track_type(1), Ok(TrackType::Video));
    assert_eq!(indexer.track_type(2), Ok(TrackType::Audio));
    assert_eq!(indexer.codec_name(0).unwrap(), "h264");
    assert_eq!(indexer.format_name().unwrap(), "matroska");
}

#[test]
fn range_validation_on_tracks() {
    let indexer = Indexer::new(Some(ten_track_source())).unwrap();
    let index = indexer.do_indexing(IndexErrorPolicy::Ignore).unwrap();
    assert!(matches!(Track::from_index(&index, 10), Err(Error::WrongTrack)));
    assert!(Track::from_index(&index, 9).is_ok());
}

#[test]
fn unknown_track_type_rejected() {
    let mut indexer = Indexer::new(Some(ten_track_source())).unwrap();
    assert_eq!(indexer.enable_track_type(TrackType::Unknown), Err(Error::UnknownTrackType));
    assert_eq!(indexer.disable_track_type(TrackType::Unknown), Err(Error::UnknownTrackType));
    // Still rejected after other configuration changed the internal state.
    indexer.disable_track(3).unwrap();
    indexer.cancel();
    assert_eq!(indexer.enable_track_type(TrackType::Unknown), Err(Error::UnknownTrackType));
    assert_eq!(indexer.disable_track_type(TrackType::Unknown), Err(Error::UnknownTrackType));
}

#[test]
fn cancellation_is_idempotent() {
    let mut indexer = Indexer::new(Some(ten_track_source())).unwrap();
    indexer.cancel();
    indexer.cancel();
    let result = indexer.do_indexing(IndexErrorPolicy::Ignore);
    assert_eq!(
        result.err(),
        Some(Error::FFMS2(ErrorKind::Cancelled, ErrorSubkind::UserCaused))
    );
}

#[test]
fn cancellation_before_any_scan() {
    let mut indexer = Indexer::new(Some(ten_track_source())).unwrap();
    indexer.cancel();
    let result = indexer.do_indexing(IndexErrorPolicy::Abort);
    assert_eq!(
        result.err(),
        Some(Error::FFMS2(ErrorKind::Cancelled, ErrorSubkind::UserCaused))
    );
}

/// A listener that records every report, can request cancellation on the
/// first invocation, and counts its own drops through a shared cell.
struct Recorder {
    reports: Rc<Cell<usize>>,
    drops: Rc<Cell<usize>>,
    stop_at_once: bool,
}

impl ProgressCallback for Recorder {
    fn on_progress(&mut self, _current: usize, _total: usize) -> usize {
        self.reports.set(self.reports.get() + 1);
        if self.stop_at_once {
            1
        } else {
            0
        }
    }
}

impl Drop for Recorder {
    fn drop(&mut self) {
        self.drops.set(self.drops.get() + 1);
    }
}

#[test]
fn callback_cancels_on_first_invocation() {
    let reports = Rc::new(Cell::new(0));
    let drops = Rc::new(Cell::new(0));
    let indexer = Indexer::new(Some(ten_track_source())).unwrap();
    let indexer = indexer.progress_callback(Recorder {
        reports: reports.clone(),
        drops: drops.clone(),
        stop_at_once: true,
    });
    let result = indexer.do_indexing(IndexErrorPolicy::Ignore);
    assert_eq!(
        result.err(),
        Some(Error::FFMS2(ErrorKind::Cancelled, ErrorSubkind::UserCaused))
    );
    assert_eq!(reports.get(), 1);
    // The captured state is released exactly once.
    assert_eq!(drops.get(), 1);
}

#[test]
fn callback_reports_whole_scan() {
    let reports = Rc::new(Cell::new(0));
    let drops = Rc::new(Cell::new(0));
    let indexer = Indexer::new(Some(ten_track_source())).unwrap();
    let indexer = indexer.progress_callback(Recorder {
        reports: reports.clone(),
        drops: drops.clone(),
        stop_at_once: false,
    });
    let index = indexer.do_indexing(IndexErrorPolicy::Ignore).unwrap();
    assert_eq!(index.tracks_count(), 10);
    // One report per track plus the completion report.
    assert_eq!(reports.get(), 11);
    assert_eq!(drops.get(), 1);
}

#[test]
fn abort_policy_fails_on_corrupt_frame() {
    let source = MediaSource {
        format_name: "mp4".to_string(),
        tracks: vec![track(
            TrackType::Video,
            "h264",
            vec![frame(0, true), corrupt_frame(10), frame(20, false)],
        )],
    };
    let indexer = Indexer::new(Some(source)).unwrap();
    let result = indexer.do_indexing(IndexErrorPolicy::Abort);
    assert_eq!(
        result.err(),
        Some(Error::FFMS2(ErrorKind::Indexing, ErrorSubkind::Codec))
    );
}

#[test]
fn abort_policy_skips_disabled_corrupt_track() {
    let source = MediaSource {
        format_name: "mp4".to_string(),
        tracks: vec![
            track(TrackType::Video, "h264", vec![frame(0, true)]),
            track(TrackType::Audio, "aac", vec![corrupt_frame(0)]),
        ],
    };
    let mut indexer = Indexer::new(Some(source)).unwrap();
    indexer.disable_track(1).unwrap();
    let index = indexer.do_indexing(IndexErrorPolicy::Abort).unwrap();
    assert_eq!(index.tracks_count(), 2);
    assert_eq!(Track::from_index(&index, 0).unwrap().frames_count(), Ok(1));
}

#[test]
fn error_policies_shape_track_content() {
    let frames = vec![frame(0, true), corrupt_frame(10), frame(20, false), frame(30, false)];
    let build = |policy| {
        let source = MediaSource {
            format_name: "mp4".to_string(),
            tracks: vec![track(TrackType::Video, "h264", frames.clone())],
        };
        let indexer = Indexer::new(Some(source)).unwrap();
        let index = indexer.do_indexing(policy).unwrap();
        Track::from_index(&index, 0).unwrap()
    };
    // Ignore keeps the three decodable frames.
    let ignored = build(IndexErrorPolicy::Ignore);
    assert_eq!(ignored.frames_count(), Ok(3));
    assert_eq!(ignored.frame_info(1).pts, 20);
    // StopTrack keeps only the frame before the decode error.
    let stopped = build(IndexErrorPolicy::StopTrack);
    assert_eq!(stopped.frames_count(), Ok(1));
    assert_eq!(stopped.frame_info(0).pts, 0);
    // ClearTrack returns the track blank.
    let cleared = build(IndexErrorPolicy::ClearTrack);
    assert_eq!(cleared.frames_count(), Ok(0));
}

#[test]
fn index_records_error_policy() {
    let indexer = Indexer::new(Some(ten_track_source())).unwrap();
    let index = indexer.do_indexing(IndexErrorPolicy::StopTrack).unwrap();
    assert_eq!(index.indexer_error(), IndexErrorPolicy::StopTrack);
}

#[test]
fn demuxer_options_are_recorded() {
    let options = vec![("analyzeduration".to_string(), "200M".to_string())];
    let indexer = Indexer::with_demuxer_options(Some(ten_track_source()), options).unwrap();
    assert_eq!(indexer.demuxer_options.len(), 1);
    assert_eq!(indexer.tracks_count(), 10);
}
