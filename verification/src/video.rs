//! Video stream types: seeking modes, display metadata enumerations, and
//! the video source handle.

use vstd::prelude::*;

use crate::error::Error;
use crate::frame::Resizers;
use crate::index::Index;
use crate::pixel::PixelFormat;
use crate::track::{Track, TrackType};

verus! {

/// File seeking mode.
///
/// Each mode provides a different way of managing file seeking.
#[derive(Clone, Copy, Debug, PartialEq, Eq, Structural)]
pub enum SeekMode {
    /// Linear access without rewind: an error is thrown whenever a
    /// successive frame number request is smaller than the last one.
    LinearNoRW,
    /// Linear access: a request for frame `n` decodes all frames from 0
    /// to `n-1` first, unless they were requested before, in this very
    /// order.
    Linear,
    /// Safe normal mode: seeking decisions are based on the keyframe
    /// positions.
    Normal,
    /// Unsafe normal mode: same as `Normal`, but no error is thrown when
    /// the exact destination has to be guessed.
    Unsafe,
    /// Aggressive mode: seeks in the forward direction even if no closer
    /// keyframe is known to exist.
    Aggressive,
}

/// The engine code of each seek mode.
pub open spec fn spec_seek_mode_code(mode: SeekMode) -> int {
    match mode {
        SeekMode::LinearNoRW => -1,
        SeekMode::Linear => 0,
        SeekMode::Normal => 1,
        SeekMode::Unsafe => 2,
        SeekMode::Aggressive => 3,
    }
}

impl SeekMode {
    /// Returns the engine integer code of this seek mode.
    pub fn ffms2_seek_mode(self) -> (r: i32)
        ensures
            r == spec_seek_mode_code(self),
    {
        match self {
            Self::LinearNoRW => -1,
            Self::Linear => 0,
            Self::Normal => 1,
            Self::Unsafe => 2,
            Self::Aggressive => 3,
        }
    }
}

/// Pixel type packaging for a stereoscopic 3D video source.
#[derive(Clone, Copy, Debug, PartialEq, Eq, Structural)]
pub enum Stereo3DType {
    /// Unknown type.
    Unknown,
    /// Not a stereoscopic video source.
    TwoDimensional,
    /// Video views are next to each other.
    SideBySide,
    /// Video views are on top of each other.
    TopBottom,
    /// Video views are alternated temporally.
    FrameSequence,
    /// Video views are packed in a checkerboard-like structure per pixel.
    CheckerBoard,
    /// Video views are next to each other, but when upscaling a
    /// checkerboard pattern is applied.
    SideBySideQuincunx,
    /// Video views are packed per line, as if interlaced.
    Lines,
    /// Video views are packed per column.
    Columns,
}

/// The stereoscopic packing an engine code stands for; unrecognized
/// codes fall back to `Unknown`.
pub open spec fn spec_stereo3d_type_of_code(code: int) -> Stereo3DType {
    if code == 0 {
        Stereo3DType::TwoDimensional
    } else if code == 1 {
        Stereo3DType::SideBySide
    } else if code == 2 {
        Stereo3DType::TopBottom
    } else if code == 3 {
        Stereo3DType::FrameSequence
    } else if code == 4 {
        Stereo3DType::CheckerBoard
    } else if code == 5 {
        Stereo3DType::SideBySideQuincunx
    } else if code == 6 {
        Stereo3DType::Lines
    } else if code == 7 {
        Stereo3DType::Columns
    } else {
        Stereo3DType::Unknown
    }
}

impl Stereo3DType {
    /// Builds a `Stereo3DType` from its engine integer code;
    /// unrecognized codes map to `Unknown`.
    pub fn new(stereo_3d_type: i32) -> (r: Self)
        ensures
            r == spec_stereo3d_type_of_code(stereo_3d_type as int),
    {
        match stereo_3d_type {
            0 => Self::TwoDimensional,
            1 => Self::SideBySide,
            2 => Self::TopBottom,
            3 => Self::FrameSequence,
            4 => Self::CheckerBoard,
            5 => Self::SideBySideQuincunx,
            6 => Self::Lines,
            7 => Self::Columns,
            _ => Self::Unknown,
        }
    }
}

/// Flags for a stereoscopic 3D video source.
#[derive(Clone, Copy, Debug, PartialEq, Eq, Structural)]
pub enum Stereo3DFlags {
    /// Unknown flag.
    Unknown,
    /// Inverted views: Right/Bottom represents the left view.
    Invert,
}

/// The stereoscopic flag an engine code stands for; unrecognized codes
/// fall back to `Unknown`.
pub open spec fn spec_stereo3d_flags_of_code(code: int) -> Stereo3DFlags {
    if code == 1 {
        Stereo3DFlags::Invert
    } else {
        Stereo3DFlags::Unknown
    }
}

impl Stereo3DFlags {
    /// Builds `Stereo3DFlags` from the engine integer code; unrecognized
    /// codes map to `Unknown`.
    pub fn new(stereo_3d_flags: i32) -> (r: Self)
        ensures
            r == spec_stereo3d_flags_of_code(stereo_3d_flags as int),
    {
        match stereo_3d_flags {
            1 => Self::Invert,
            _ => Self::Unknown,
        }
    }
}

/// Valid range of luma values for a YUV video source.
#[derive(Clone, Copy, Debug, PartialEq, Eq, Structural)]
pub enum ColorRange {
    /// The range is not specified.
    Unspecified,
    /// TV range, also known as limited range: luma values in [16, 235]
    /// at 8-bit depth.
    Mpeg,
    /// PC range, also known as full range: luma values in [0, 255] at
    /// 8-bit depth.
    Jpeg,
}

/// The engine code of each color range.
pub open spec fn spec_color_range_code(range: ColorRange) -> int {
    match range {
        ColorRange::Unspecified => 0,
        ColorRange::Mpeg => 1,
        ColorRange::Jpeg => 2,
    }
}

/// The color range an engine code stands for; unrecognized codes fall
/// back to `Unspecified`.
pub open spec fn spec_color_range_of_code(code: int) -> ColorRange {
    if code == 1 {
        ColorRange::Mpeg
    } else if code == 2 {
        ColorRange::Jpeg
    } else {
        ColorRange::Unspecified
    }
}

impl ColorRange {
    /// Returns the engine integer code of this color range.
    pub fn ffms2_color_ranges(self) -> (r: i32)
        ensures
            r == spec_color_range_code(self),
    {
        match self {
            Self::Unspecified => 0,
            Self::Mpeg => 1,
            Self::Jpeg => 2,
        }
    }

    /// Builds a `ColorRange` from its engine integer code; unrecognized
    /// codes map to `Unspecified`.
    pub fn new(color_range: i32) -> (r: Self)
        ensures
            r == spec_color_range_of_code(color_range as int),
    {
        match color_range {
            1 => Self::Mpeg,
            2 => Self::Jpeg,
            _ => Self::Unspecified,
        }
    }
}

/// The outbound and inbound color-range code mappings invert each other.
pub proof fn lemma_color_range_code_round_trip(range: ColorRange)
    ensures
        spec_color_range_of_code(spec_color_range_code(range)) == range,
{
}

/// Flip direction to be applied to a frame before a rotation.
#[derive(Clone, Copy, Debug, PartialEq, Eq, Structural)]
pub enum Flip {
    /// No flip operation.
    NoFlip,
    /// Horizontal flip direction.
    Horizontal,
    /// Vertical flip direction.
    Vertical,
}

/// Frame rate associated with a video source.
///
/// It is obtained dividing the numerator by the denominator field.  This
/// value is mostly useful for informational purposes; individual frame
/// timestamps should be preferred for timing.
#[derive(Clone, Copy, Debug, PartialEq, Eq, Structural)]
pub struct FrameRate {
    /// Frame rate numerator.
    pub numerator: usize,
    /// Frame rate denominator.
    pub denominator: usize,
}

/// Repeat First Field (RFF) timebase associated with an MPEG video
/// source.
#[derive(Clone, Copy, Debug, PartialEq, Eq, Structural)]
pub struct RFFTimebase {
    /// RFF timebase numerator.
    pub numerator: usize,
    /// RFF timebase denominator.
    pub denominator: usize,
}

/// Sample aspect ratio for video source frames.
///
/// This value should be taken into account when computing the correct
/// display aspect ratio for anamorphic video sources.
#[derive(Clone, Copy, Debug, PartialEq, Eq, Structural)]
pub struct SampleAspectRatio {
    /// Sample aspect ratio numerator.
    pub numerator: usize,
    /// Sample aspect ratio denominator.
    pub denominator: usize,
}

/// The number of pixels in each direction (top, bottom, left, right) a
/// frame should be cropped before displaying it.
#[derive(Clone, Copy, Debug, PartialEq, Eq, Structural)]
pub struct Crop {
    /// Top direction.
    pub top: i32,
    /// Bottom direction.
    pub bottom: i32,
    /// Left direction.
    pub left: i32,
    /// Right direction.
    pub right: i32,
}

/// Video source manager: a handle over one video track of an index,
/// carrying the seeking mode, the decoding thread count and the
/// input/output format overrides chosen by the caller.
///
/// Frame decoding and scaling are the engine's work and stay outside
/// this library.
pub struct VideoSource {
    /// The indexed video track this source reads.
    pub track: Track,
    /// The number of decoding threads requested at creation.
    pub threads: usize,
    /// The seeking mode chosen at creation.
    pub seek_mode: SeekMode,
    /// The input format override, when one is set: color space, color
    /// range and pixel format.
    pub input_format: Option<(PixelFormat, ColorRange, PixelFormat)>,
    /// The output format, when one is set: the acceptable color spaces,
    /// the output width and height, and the resizer.
    pub output_format: Option<(Vec<PixelFormat>, usize, usize, Resizers)>,
}

impl VideoSource {
    /// Creates a new `VideoSource` over the given track of an index.
    ///
    /// Fails with `WrongTrack` when the track number is not below the
    /// index's track count, and with an invalid-argument error when the
    /// named track is not a video track.  No format overrides are set.
    pub fn new(index: &Index, track_number: usize, threads: usize, seek_mode: SeekMode) -> (r:
        crate::error::Result<VideoSource>)
        ensures
            track_number >= index@.tracks.len() ==> r == Err::<VideoSource, Error>(
                Error::WrongTrack,
            ),
            track_number < index@.tracks.len() && index@.tracks[track_number as int].track_type
                != TrackType::Video ==> r == Err::<VideoSource, Error>(
                Error::FFMS2(
                    crate::error::ErrorKind::Index,
                    crate::error::ErrorSubkind::InvalidArgument,
                ),
            ),
            track_number < index@.tracks.len() && index@.tracks[track_number as int].track_type
                == TrackType::Video ==> (r matches Ok(source) && source.track@ == index@.tracks[
                track_number as int
            ] && source.threads == threads && source.seek_mode == seek_mode
                && source.input_format is None && source.output_format is None),
    {
        if track_number >= index.tracks.len() {
            return Err(Error::WrongTrack);
        }
        if !(index.tracks[track_number].track_type == TrackType::Video) {
            proof {
                assert(index@.tracks[track_number as int].track_type != TrackType::Video);
            }
            return Err(
                Error::FFMS2(
                    crate::error::ErrorKind::Index,
                    crate::error::ErrorSubkind::InvalidArgument,
                ),
            );
        }
        proof {
            assert(index@.tracks[track_number as int].track_type == TrackType::Video);
        }
        Ok(
            VideoSource {
                track: index.tracks[track_number].duplicate(),
                threads,
                seek_mode,
                input_format: None,
                output_format: None,
            },
        )
    }

    /// Overrides the video source color space.
    ///
    /// This method is intended primarily for compatibility with programs
    /// which use the wrong YUV color space when converting to or from
    /// RGB, but it can also be useful for files which have incorrect
    /// color space flags.  Values passed to this function are not
    /// checked for sanity.
    pub fn set_input_format(
        &mut self,
        color_space: PixelFormat,
        color_range: ColorRange,
        pixel_format: PixelFormat,
    ) -> (r: crate::error::Result<()>)
        ensures
            r == Ok::<(), Error>(()),
            final(self).input_format == Some((color_space, color_range, pixel_format)),
            final(self).track == old(self).track,
            final(self).threads == old(self).threads,
            final(self).seek_mode == old(self).seek_mode,
            final(self).output_format == old(self).output_format,
    {
        self.input_format = Some((color_space, color_range, pixel_format));
        Ok(())
    }

    /// Resets the input format to the values specified in the video
    /// source file.
    pub fn reset_input_format(&mut self)
        ensures
            final(self).input_format is None,
            final(self).track == old(self).track,
            final(self).threads == old(self).threads,
            final(self).seek_mode == old(self).seek_mode,
            final(self).output_format == old(self).output_format,
    {
        self.input_format = None;
    }

    /// Sets the color spaces and frame dimensions to be used for output
    /// video source frames.
    pub fn set_output_format(
        &mut self,
        colorspaces: &[PixelFormat],
        width: usize,
        height: usize,
        resizer: Resizers,
    ) -> (r: crate::error::Result<()>)
        ensures
            r == Ok::<(), Error>(()),
            final(self).output_format matches Some((spaces, w, h, rs)) && spaces@ == colorspaces@
                && w == width && h == height && rs == resizer,
            final(self).track == old(self).track,
            final(self).threads == old(self).threads,
            final(self).seek_mode == old(self).seek_mode,
            final(self).input_format == old(self).input_format,
    {
        let mut spaces: Vec<PixelFormat> = Vec::new();
        let mut i: usize = 0;
        while i < colorspaces.len()
            invariant
                i <= colorspaces@.len(),
                spaces@ =~= colorspaces@.take(i as int),
            decreases colorspaces@.len() - i,
        {
            spaces.push(*vstd::slice::slice_index_get(colorspaces, i));
            proof {
                assert(spaces@ =~= colorspaces@.take(i + 1 as int));
            }
            i = i + 1;
        }
        proof {
            assert(colorspaces@.take(colorspaces@.len() as int) =~= colorspaces@);
        }
        self.output_format = Some((spaces, width, height, resizer));
        Ok(())
    }

    /// Resets the output format for a video source so that no conversion
    /// is applied.
    pub fn reset_output_format(&mut self)
        ensures
            final(self).output_format is None,
            final(self).track == old(self).track,
            final(self).threads == old(self).threads,
            final(self).seek_mode == old(self).seek_mode,
            final(self).input_format == old(self).input_format,
    {
        self.output_format = None;
    }
}

} // verus!
