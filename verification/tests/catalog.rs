use ffms2::audio::{AudioChannel, AudioDelay, AudioGapFillModes, AudioSource};
use ffms2::error::{
    ffms2_main_types_error, ffms2_subtypes_error, Error, ErrorKind, ErrorSubkind, InternalError,
};
use ffms2::frame::{ChromaLocation, FrameInfo, Resizers};
use ffms2::index::{IndexErrorPolicy, Indexer};
use ffms2::pixel::PixelFormat;
use ffms2::resample::{
    AudioDitherMethod, MatrixEncoding, MixingCoefficientType, ResampleFilterType, SampleFormat,
};
use ffms2::source::{MediaSource, SourceFrame, SourceTrack};
use ffms2::text::uppercase_first;
use ffms2::track::{Track, TrackTimebase, TrackType};
use ffms2::video::{ColorRange, SeekMode, Stereo3DFlags, Stereo3DType, VideoSource};
use ffms2::{FFMS2, Log, LogLevel};

#[test]
fn version() {
    let version = FFMS2::version();
    println!("ffms2 version {}", version);
}

#[test]
fn log_level_settings() {
    FFMS2::init();
    let mut log = Log::new();
    assert_eq!(log.log_level(), LogLevel::Info);
    log.set_log_level(LogLevel::Debug);
    assert_eq!(log.log_level(), LogLevel::Debug);
    assert_eq!(LogLevel::Quiet.ffms2_log_level(), -8);
    assert_eq!(LogLevel::Trace.ffms2_log_level(), 56);
    assert_eq!(LogLevel::new(32), LogLevel::Info);
    assert_eq!(LogLevel::new(7), LogLevel::Error);
}

#[test]
fn track_type_codes() {
    assert_eq!(TrackType::Unknown.ffms2_track_type(), -1);
    assert_eq!(TrackType::Video.ffms2_track_type(), 0);
    assert_eq!(TrackType::Audio.ffms2_track_type(), 1);
    assert_eq!(TrackType::Data.ffms2_track_type(), 2);
    assert_eq!(TrackType::Subtitle.ffms2_track_type(), 3);
    assert_eq!(TrackType::Attachment.ffms2_track_type(), 4);
    assert_eq!(TrackType::new(0), TrackType::Video);
    assert_eq!(TrackType::new(4), TrackType::Attachment);
    assert_eq!(TrackType::new(99), TrackType::Unknown);
    assert_eq!(TrackType::new(TrackType::Subtitle.ffms2_track_type()), TrackType::Subtitle);
}

#[test]
fn error_catalog_texts() {
    assert_eq!(ffms2_main_types_error(0), "Success.");
    assert_eq!(ffms2_main_types_error(1), "Index File Handling.");
    assert_eq!(ffms2_main_types_error(10), "Operation Aborted.");
    assert_eq!(ffms2_main_types_error(77), "Unknown.");
    assert_eq!(ffms2_subtypes_error(24), "No file.");
    assert_eq!(ffms2_subtypes_error(25), "Wrong Version.");
    assert_eq!(ffms2_subtypes_error(31), "User Error.");
    assert_eq!(ffms2_subtypes_error(5), "Unknown.");
}

#[test]
fn internal_error_conversion() {
    let zeroed = InternalError::new();
    assert_eq!(zeroed.error_type, 0);
    assert_eq!(zeroed.sub_type, 0);
    assert_eq!(zeroed.buffer.len(), 1024);
    assert!(zeroed.buffer.iter().all(|b| *b == 0));
    let mut failed = InternalError::new();
    failed.error_type = ErrorKind::Indexing.code();
    failed.sub_type = ErrorSubkind::Codec.code();
    let error: Error = failed.into();
    assert_eq!(error, Error::FFMS2(ErrorKind::Indexing, ErrorSubkind::Codec));
    assert_eq!(error.message(), "ffms2 API error.");
    assert_eq!(Error::WrongTrack.message(), "Wrong track number.");
}

#[test]
fn error_code_catalog() {
    assert_eq!(ErrorKind::Index.code(), 1);
    assert_eq!(ErrorKind::Resampling.code(), 11);
    assert_eq!(ErrorKind::new(10), ErrorKind::Cancelled);
    assert_eq!(ErrorKind::new(55), ErrorKind::Unknown);
    assert_eq!(ErrorSubkind::Unknown.code(), 20);
    assert_eq!(ErrorSubkind::UserCaused.code(), 31);
    assert_eq!(ErrorSubkind::new(30), ErrorSubkind::FileMismatch);
    assert_eq!(ErrorSubkind::new(3), ErrorSubkind::Unknown);
}

#[test]
fn frame_metadata() {
    let info = FrameInfo::new(90, 1, 1, 88);
    assert_eq!(info.pts, 90);
    assert_eq!(info.repeat_picture, 1);
    assert!(info.keyframe);
    assert_eq!(info.original_pts, 88);
    let not_key = FrameInfo::new(90, 0, 0, 90);
    assert!(!not_key.keyframe);
}

#[test]
fn resizer_codes() {
    assert_eq!(Resizers::FastBilinear.ffms2_resizer(), 0x01);
    assert_eq!(Resizers::NearestNeighbor.ffms2_resizer(), 0x10);
    assert_eq!(Resizers::Spline.ffms2_resizer(), 0x400);
}

#[test]
fn chroma_location_codes() {
    assert_eq!(ChromaLocation::new(0), ChromaLocation::Unspecified);
    assert_eq!(ChromaLocation::new(1), ChromaLocation::Left);
    assert_eq!(ChromaLocation::new(6), ChromaLocation::Bottom);
    assert_eq!(ChromaLocation::new(-5), ChromaLocation::Unspecified);
}

#[test]
fn pixel_format_codes() {
    assert_eq!(PixelFormat::new(-1), PixelFormat::NONE);
    assert_eq!(PixelFormat::new(0), PixelFormat::YUV420P);
    assert_eq!(PixelFormat::new(2), PixelFormat::RGB24);
    assert_eq!(PixelFormat::new(23), PixelFormat::NV12);
    assert_eq!(PixelFormat::new(231), PixelFormat::NB);
    assert_eq!(PixelFormat::new(232), PixelFormat::NONE);
    assert_eq!(PixelFormat::new(4000), PixelFormat::NONE);
}

#[test]
fn resample_catalogs() {
    assert_eq!(MatrixEncoding::new(0), Some(MatrixEncoding::NoEncoding));
    assert_eq!(MatrixEncoding::new(6), Some(MatrixEncoding::DolbyHeadphone));
    assert_eq!(MatrixEncoding::new(7), None);
    assert_eq!(MatrixEncoding::Dolby.into_ffms2(), 1);
    assert_eq!(SampleFormat::new(1), Some(SampleFormat::S16));
    assert_eq!(SampleFormat::new(9), None);
    assert_eq!(SampleFormat::Dbl.into_ffms2(), 4);
    assert_eq!(ResampleFilterType::new(2, 9), Some(ResampleFilterType::Kaiser(9)));
    assert_eq!(ResampleFilterType::new(5, 9), None);
    assert_eq!(ResampleFilterType::Kaiser(9).into_ffms2(), (9, 2));
    assert_eq!(ResampleFilterType::Sinc.into_ffms2(), (0, 1));
    assert_eq!(AudioDitherMethod::new(3), Some(AudioDitherMethod::TriangularHighPass));
    assert_eq!(AudioDitherMethod::new(-1), None);
    assert_eq!(AudioDitherMethod::NoDither.into_ffms2(), 0);
    assert_eq!(MixingCoefficientType::new(2), Some(MixingCoefficientType::Flt));
    assert_eq!(MixingCoefficientType::new(3), None);
    assert_eq!(MixingCoefficientType::Q15.into_ffms2(), 1);
}

#[test]
fn audio_channel_maps() {
    assert_eq!(AudioChannel::FrontLeft.bit(), 0x1);
    assert_eq!(AudioChannel::StereoRight.bit(), 0x40000000);
    let stereo = AudioChannel::channel_map(0x3).unwrap();
    assert_eq!(stereo, vec![AudioChannel::FrontLeft, AudioChannel::FrontRight]);
    assert_eq!(AudioChannel::channel_map(0), None);
    let surround = AudioChannel::channel_map(0x107).unwrap();
    assert_eq!(
        surround,
        vec![
            AudioChannel::FrontLeft,
            AudioChannel::FrontRight,
            AudioChannel::FrontCenter,
            AudioChannel::BackCenter,
        ]
    );
    assert_eq!(AudioChannel::into_ffms2(&surround), 0x107);
    assert_eq!(AudioChannel::into_ffms2(&[]), 0);
    assert_eq!(AudioChannel::into_ffms2(&[AudioChannel::Unknown, AudioChannel::SideLeft]), 0x200);
}

#[test]
fn audio_modes() {
    assert_eq!(AudioGapFillModes::Auto.ffms2_audio_gap_fill_modes(), 0);
    assert_eq!(AudioGapFillModes::Enabled.ffms2_audio_gap_fill_modes(), 2);
    assert_eq!(AudioDelay::NoShift.ffms2_audio_delay(), -3);
    assert_eq!(AudioDelay::TimeZero.ffms2_audio_delay(), -2);
    assert_eq!(AudioDelay::FirstVideoTrack.ffms2_audio_delay(), -1);
    assert_eq!(AudioDelay::IndexTrack(4).ffms2_audio_delay(), 4);
}

#[test]
fn video_enum_codes() {
    assert_eq!(SeekMode::LinearNoRW.ffms2_seek_mode(), -1);
    assert_eq!(SeekMode::Aggressive.ffms2_seek_mode(), 3);
    assert_eq!(Stereo3DType::new(0), Stereo3DType::TwoDimensional);
    assert_eq!(Stereo3DType::new(7), Stereo3DType::Columns);
    assert_eq!(Stereo3DType::new(-2), Stereo3DType::Unknown);
    assert_eq!(Stereo3DFlags::new(1), Stereo3DFlags::Invert);
    assert_eq!(Stereo3DFlags::new(0), Stereo3DFlags::Unknown);
    assert_eq!(ColorRange::Jpeg.ffms2_color_ranges(), 2);
    assert_eq!(ColorRange::new(1), ColorRange::Mpeg);
    assert_eq!(ColorRange::new(9), ColorRange::Unspecified);
}

fn two_track_index() -> ffms2::index::Index {
    let source = MediaSource {
        format_name: "matroska".to_string(),
        tracks: vec![
            SourceTrack {
                track_type: TrackType::Video,
                codec_name: "h264".to_string(),
                time_base: TrackTimebase {
                    numerator: 1,
                    denominator: 1,
                },
                frames: vec![SourceFrame {
                    pts: 0,
                    repeat_picture: 0,
                    keyframe: true,
                    original_pts: 0,
                    corrupt: false,
                }],
            },
            SourceTrack {
                track_type: TrackType::Audio,
                codec_name: "aac".to_string(),
                time_base: TrackTimebase {
                    numerator: 1,
                    denominator: 48000,
                },
                frames: vec![SourceFrame {
                    pts: 0,
                    repeat_picture: 0,
                    keyframe: true,
                    original_pts: 0,
                    corrupt: false,
                }],
            },
        ],
    };
    Indexer::new(Some(source))
        .unwrap()
        .do_indexing(IndexErrorPolicy::Ignore)
        .unwrap()
}

#[test]
fn video_source_handles() {
    let index = two_track_index();
    assert!(matches!(
        VideoSource::new(&index, 5, 0, SeekMode::Normal),
        Err(Error::WrongTrack)
    ));
    assert!(matches!(
        VideoSource::new(&index, 1, 0, SeekMode::Normal),
        Err(Error::FFMS2(ErrorKind::Index, ErrorSubkind::InvalidArgument))
    ));
    let mut video = VideoSource::new(&index, 0, 2, SeekMode::Normal).unwrap();
    let track = Track::from_video(&mut video).unwrap();
    assert_eq!(track.track_type(), TrackType::Video);
    video
        .set_input_format(PixelFormat::YUV420P, ColorRange::Mpeg, PixelFormat::YUV420P)
        .unwrap();
    assert!(video.input_format.is_some());
    video.reset_input_format();
    assert!(video.input_format.is_none());
    video
        .set_output_format(&[PixelFormat::RGB24], 640, 480, Resizers::Bilinear)
        .unwrap();
    assert!(video.output_format.is_some());
    video.reset_output_format();
    assert!(video.output_format.is_none());
}

#[test]
fn audio_source_handles() {
    let index = two_track_index();
    assert!(matches!(
        AudioSource::new(&index, 9, AudioDelay::FirstVideoTrack),
        Err(Error::WrongTrack)
    ));
    assert!(matches!(
        AudioSource::new(&index, 0, AudioDelay::FirstVideoTrack),
        Err(Error::FFMS2(ErrorKind::Index, ErrorSubkind::InvalidArgument))
    ));
    let mut audio = AudioSource::new(&index, 1, AudioDelay::TimeZero).unwrap();
    let track = Track::from_audio(&mut audio).unwrap();
    assert_eq!(track.track_type(), TrackType::Audio);
    assert_eq!(track.time_base().denominator, 48000);
}

#[test]
fn un_indexed_source_track_fails() {
    let source = MediaSource {
        format_name: "matroska".to_string(),
        tracks: vec![SourceTrack {
            track_type: TrackType::Video,
            codec_name: "h264".to_string(),
            time_base: TrackTimebase {
                numerator: 1,
                denominator: 1,
            },
            frames: vec![],
        }],
    };
    let mut indexer = Indexer::new(Some(source)).unwrap();
    indexer.disable_track(0).unwrap();
    let index = indexer.do_indexing(IndexErrorPolicy::Ignore).unwrap();
    let mut video = VideoSource::new(&index, 0, 0, SeekMode::Linear).unwrap();
    assert!(matches!(Track::from_video(&mut video), Err(Error::Track)));
}

#[test]
fn timecodes_text() {
    let source = MediaSource {
        format_name: "matroska".to_string(),
        tracks: vec![SourceTrack {
            track_type: TrackType::Video,
            codec_name: "h264".to_string(),
            // 1/25 of a second per timestamp unit, in milliseconds.
            time_base: TrackTimebase {
                numerator: 40,
                denominator: 1,
            },
            frames: vec![
                SourceFrame {
                    pts: 0,
                    repeat_picture: 0,
                    keyframe: true,
                    original_pts: 0,
                    corrupt: false,
                },
                SourceFrame {
                    pts: 1,
                    repeat_picture: 0,
                    keyframe: false,
                    original_pts: 1,
                    corrupt: false,
                },
                SourceFrame {
                    pts: 25,
                    repeat_picture: 0,
                    keyframe: false,
                    original_pts: 25,
                    corrupt: false,
                },
            ],
        }],
    };
    let index = Indexer::new(Some(source))
        .unwrap()
        .do_indexing(IndexErrorPolicy::Ignore)
        .unwrap();
    let track = Track::from_index(&index, 0).unwrap();
    let text = track.write_timecodes().unwrap();
    assert_eq!(text, "# timecode format v2\n0\n40\n1000\n");
}

#[test]
fn timecodes_need_an_indexed_track() {
    let index = two_track_index();
    let mut source = VideoSource::new(&index, 0, 0, SeekMode::Normal).unwrap();
    let ok_track = Track::from_video(&mut source).unwrap();
    assert!(ok_track.write_timecodes().is_ok());
    let bare = MediaSource {
        format_name: "avi".to_string(),
        tracks: vec![SourceTrack {
            track_type: TrackType::Video,
            codec_name: "h264".to_string(),
            time_base: TrackTimebase {
                numerator: 1,
                denominator: 0,
            },
            frames: vec![],
        }],
    };
    let mut indexer = Indexer::new(Some(bare)).unwrap();
    indexer.disable_track(0).unwrap();
    let unindexed = indexer.do_indexing(IndexErrorPolicy::Ignore).unwrap();
    let track = Track::from_index(&unindexed, 0).unwrap();
    assert!(matches!(track.write_timecodes(), Err(Error::Track)));
}

#[test]
fn uppercase_first_letter() {
    assert_eq!(uppercase_first("planar YUV"), "Planar YUV");
    assert_eq!(uppercase_first("Packed RGB"), "Packed RGB");
    assert_eq!(uppercase_first(""), "");
    assert_eq!(uppercase_first("8 bits"), "8 bits");
}
