use ffms2::error::{Error, ErrorKind, ErrorSubkind};
use ffms2::index::{Index, IndexErrorPolicy, Indexer};
use ffms2::source::{MediaSource, SourceFrame, SourceTrack};
use ffms2::track::{Track, TrackTimebase, TrackType};

fn sample_source() -> MediaSource {
    MediaSource {
        format_name: "matroska".to_string(),
        tracks: vec![
            SourceTrack {
                track_type: TrackType::Video,
                codec_name: "h264".to_string(),
                time_base: TrackTimebase {
                    numerator: 1,
                    denominator: 1000,
                },
                frames: vec![
                    SourceFrame {
                        pts: 0,
                        repeat_picture: 0,
                        keyframe: true,
                        original_pts: 0,
                        corrupt: false,
                    },
                    SourceFrame {
                        pts: 40,
                        repeat_picture: 1,
                        keyframe: false,
                        original_pts: 40,
                        corrupt: false,
                    },
                ],
            },
            SourceTrack {
                track_type: TrackType::Subtitle,
                codec_name: "srt".to_string(),
                time_base: TrackTimebase {
                    numerator: 1,
                    denominator: 1,
                },
                frames: vec![],
            },
        ],
    }
}

fn sample_index() -> Index {
    Indexer::new(Some(sample_source()))
        .unwrap()
        .do_indexing(IndexErrorPolicy::Ignore)
        .unwrap()
}

fn assert_same_index(a: &Index, b: &Index) {
    assert_eq!(a.tracks_count(), b.tracks_count());
    assert_eq!(a.indexer_error(), b.indexer_error());
    for t in 0..a.tracks_count() {
        let ta = Track::from_index(a, t).unwrap();
        let tb = Track::from_index(b, t).unwrap();
        assert_eq!(ta.track_type(), tb.track_type());
        assert_eq!(ta.time_base(), tb.time_base());
        assert_eq!(ta.frames_count().ok(), tb.frames_count().ok());
        if let Ok(count) = ta.frames_count() {
            for f in 0..count {
                assert_eq!(ta.frame_info(f), tb.frame_info(f));
            }
        }
    }
}

#[test]
fn buffer_round_trip() {
    let mut index = sample_index();
    let bytes = index.write_to_buffer().unwrap().clone();
    let back = Index::from_buffer(&bytes).unwrap();
    assert_same_index(&index, &back);
}

#[test]
fn file_round_trip() {
    // The file path variant works on the same bytes the buffer variant
    // produces: writing them to disk and reading them back is the
    // caller's I/O.
    let mut index = sample_index();
    let file_bytes = index.write_to_buffer().unwrap().clone();
    let back = Index::new(Some(&file_bytes)).unwrap();
    assert_same_index(&index, &back);
    assert_eq!(back.first_track_of_type(TrackType::Subtitle).unwrap(), 1);
}

#[test]
fn missing_index_file() {
    let result = Index::new(None);
    assert_eq!(result.err(), Some(Error::NotAFile));
}

#[test]
fn garbage_bytes_rejected() {
    let result = Index::from_buffer(&[1, 2, 3, 4, 5]);
    assert_eq!(
        result.err(),
        Some(Error::FFMS2(ErrorKind::Index, ErrorSubkind::FileRead))
    );
}

#[test]
fn version_mismatch_reported() {
    let mut index = sample_index();
    let mut bytes = index.write_to_buffer().unwrap().clone();
    bytes[4] = 9;
    let result = Index::from_buffer(&bytes);
    assert_eq!(
        result.err(),
        Some(Error::FFMS2(ErrorKind::Index, ErrorSubkind::Version))
    );
}

#[test]
fn truncated_artifact_rejected() {
    let mut index = sample_index();
    let bytes = index.write_to_buffer().unwrap().clone();
    let result = Index::from_buffer(&bytes[..bytes.len() - 1]);
    assert_eq!(
        result.err(),
        Some(Error::FFMS2(ErrorKind::Index, ErrorSubkind::FileRead))
    );
}

#[test]
fn trailing_bytes_rejected() {
    let mut index = sample_index();
    let mut bytes = index.write_to_buffer().unwrap().clone();
    bytes.push(0);
    let result = Index::from_buffer(&bytes);
    assert_eq!(
        result.err(),
        Some(Error::FFMS2(ErrorKind::Index, ErrorSubkind::FileRead))
    );
}

#[test]
fn second_buffer_write_replaces_first() {
    let mut index = sample_index();
    let first = index.write_to_buffer().unwrap().clone();
    let second = index.write_to_buffer().unwrap().clone();
    assert_eq!(first, second);
    assert_same_index(&index, &Index::from_buffer(&second).unwrap());
}

#[test]
fn belongs_to_file_checks_layout() {
    let index = sample_index();
    assert_eq!(index.belongs_to_file(Some(&sample_source())), Ok(true));
    assert_eq!(index.belongs_to_file(None), Err(Error::NotAFile));
    let mut other = sample_source();
    other.tracks[1].track_type = TrackType::Audio;
    assert_eq!(index.belongs_to_file(Some(&other)), Ok(false));
    other.tracks.pop();
    assert_eq!(index.belongs_to_file(Some(&other)), Ok(false));
}

#[test]
fn first_track_lookups() {
    let mut source = sample_source();
    source.tracks[1].track_type = TrackType::Audio;
    let mut indexer = Indexer::new(Some(source)).unwrap();
    // Leave the audio track un-indexed.
    indexer.disable_track(1).unwrap();
    let index = indexer.do_indexing(IndexErrorPolicy::Ignore).unwrap();
    assert_eq!(index.first_track_of_type(TrackType::Audio).unwrap(), 1);
    assert_eq!(
        index.first_indexed_track_of_type(TrackType::Audio).err(),
        Some(Error::FFMS2(ErrorKind::Track, ErrorSubkind::NotAvailable))
    );
    assert_eq!(index.first_indexed_track_of_type(TrackType::Video).unwrap(), 0);
    assert_eq!(
        index.first_track_of_type(TrackType::Attachment).err(),
        Some(Error::FFMS2(ErrorKind::Track, ErrorSubkind::NotAvailable))
    );
}

#[test]
fn artifact_layout() {
    let source = MediaSource {
        format_name: "wav".to_string(),
        tracks: vec![],
    };
    let mut index = Indexer::new(Some(source))
        .unwrap()
        .do_indexing(IndexErrorPolicy::StopTrack)
        .unwrap();
    let bytes = index.write_to_buffer().unwrap();
    // Magic, format version, policy code, and the track count in
    // little-endian 64-bit form.
    assert_eq!(
        bytes.as_slice(),
        &[0x46, 0x49, 0x44, 0x58, 1, 2, 0, 0, 0, 0, 0, 0, 0, 0]
    );
}

#[test]
fn policy_codes() {
    assert_eq!(IndexErrorPolicy::Abort.code(), 0);
    assert_eq!(IndexErrorPolicy::ClearTrack.code(), 1);
    assert_eq!(IndexErrorPolicy::StopTrack.code(), 2);
    assert_eq!(IndexErrorPolicy::Ignore.code(), 3);
    assert_eq!(IndexErrorPolicy::new(3), Some(IndexErrorPolicy::Ignore));
    assert_eq!(IndexErrorPolicy::new(4), None);
}

#[test]
fn empty_index_round_trip() {
    let source = MediaSource {
        format_name: "wav".to_string(),
        tracks: vec![],
    };
    let mut index = Indexer::new(Some(source))
        .unwrap()
        .do_indexing(IndexErrorPolicy::Abort)
        .unwrap();
    assert_eq!(index.tracks_count(), 0);
    let bytes = index.write_to_buffer().unwrap().clone();
    let back = Index::from_buffer(&bytes).unwrap();
    assert_eq!(back.tracks_count(), 0);
    assert_eq!(back.indexer_error(), IndexErrorPolicy::Abort);
}
