//! Frame metadata types.

use vstd::prelude::*;

verus! {

/// Supported number of frame planes.
pub const PLANES_COUNT: usize = 4;

/// Frame resizing/scaling algorithms.
#[derive(Clone, Copy, Debug, PartialEq, Eq, Structural)]
pub enum Resizers {
    /// Fast bilinear scaling algorithm.
    FastBilinear,
    /// Bilinear scaling algorithm.
    Bilinear,
    /// Bicubic scaling algorithm.
    Bicubic,
    /// Experimental scaling algorithm.
    Experimental,
    /// Nearest neighbor rescaling algorithm.
    NearestNeighbor,
    /// Averaging area rescaling algorithm.
    Area,
    /// Bicubic scaling algorithm for the luma plane, while bilinear
    /// for chroma planes.
    Bicublin,
    /// Gaussian rescaling algorithm.
    Gauss,
    /// Sinc rescaling algorithm.
    Sinc,
    /// Lanczos rescaling algorithm.
    Lanczos,
    /// Natural bicubic spline rescaling algorithm.
    Spline,
}

/// The engine code of each resizer.
pub open spec fn spec_resizer_code(resizer: Resizers) -> int {
    match resizer {
        Resizers::FastBilinear => 0x01,
        Resizers::Bilinear => 0x02,
        Resizers::Bicubic => 0x04,
        Resizers::Experimental => 0x08,
        Resizers::NearestNeighbor => 0x10,
        Resizers::Area => 0x20,
        Resizers::Bicublin => 0x40,
        Resizers::Gauss => 0x80,
        Resizers::Sinc => 0x100,
        Resizers::Lanczos => 0x200,
        Resizers::Spline => 0x400,
    }
}

impl Resizers {
    /// Returns the engine integer code of this resizer.
    pub fn ffms2_resizer(self) -> (r: i32)
        ensures
            r == spec_resizer_code(self),
    {
        match self {
            Self::FastBilinear => 0x01,
            Self::Bilinear => 0x02,
            Self::Bicubic => 0x04,
            Self::Experimental => 0x08,
            Self::NearestNeighbor => 0x10,
            Self::Area => 0x20,
            Self::Bicublin => 0x40,
            Self::Gauss => 0x80,
            Self::Sinc => 0x100,
            Self::Lanczos => 0x200,
            Self::Spline => 0x400,
        }
    }
}

/// Chroma samples location in a frame.
///
/// The location names follow the usual broadcast conventions: `Left` is
/// the MPEG-2/4 and H.264 default for 4:2:0 material, `Center` the
/// MPEG-1/JPEG/H.263 placement, `TopLeft` the ITU-R 601 and DV placement.
#[derive(Clone, Copy, Debug, PartialEq, Eq, Structural)]
pub enum ChromaLocation {
    /// Unspecified location.
    Unspecified,
    /// Left.
    Left,
    /// Center.
    Center,
    /// Top-left.
    TopLeft,
    /// Top.
    Top,
    /// Bottom-left.
    BottomLeft,
    /// Bottom.
    Bottom,
}

/// The chroma location an engine code stands for; unrecognized codes fall
/// back to `Unspecified`.
pub open spec fn spec_chroma_location_of_code(code: int) -> ChromaLocation {
    if code == 1 {
        ChromaLocation::Left
    } else if code == 2 {
        ChromaLocation::Center
    } else if code == 3 {
        ChromaLocation::TopLeft
    } else if code == 4 {
        ChromaLocation::Top
    } else if code == 5 {
        ChromaLocation::BottomLeft
    } else if code == 6 {
        ChromaLocation::Bottom
    } else {
        ChromaLocation::Unspecified
    }
}

impl ChromaLocation {
    /// Builds a `ChromaLocation` from its engine integer code;
    /// unrecognized codes map to `Unspecified`.
    pub fn new(chroma_locations: i32) -> (r: Self)
        ensures
            r == spec_chroma_location_of_code(chroma_locations as int),
    {
        match chroma_locations {
            1 => Self::Left,
            2 => Self::Center,
            3 => Self::TopLeft,
            4 => Self::Top,
            5 => Self::BottomLeft,
            6 => Self::Bottom,
            _ => Self::Unspecified,
        }
    }
}

/// Video frame metadata.
#[derive(Clone, Copy, Debug, PartialEq, Eq, Structural)]
pub struct FrameInfo {
    /// The decoding timestamp of a frame.
    ///
    /// To convert this to a timestamp in clock milliseconds, multiply by
    /// the track timebase numerator and divide by its denominator.
    pub pts: u64,
    /// Repeat First Field (RFF) flag for an MPEG frame.
    ///
    /// A frame must be displayed for `1 + repeat_picture` time units.
    pub repeat_picture: usize,
    /// Whether a frame is a keyframe.
    pub keyframe: bool,
    /// Original decoding timestamp of a frame, before any normalization.
    ///
    /// This field should be used when a video source presents
    /// discontinuous timestamps, such as Variable Frame Rate formats.
    pub original_pts: usize,
}

impl FrameInfo {
    /// Builds the metadata record of one indexed frame; the keyframe flag
    /// is set for a positive keyframe code.
    pub fn new(pts: u64, repeat_picture: usize, keyframe: i32, original_pts: usize) -> (r: Self)
        ensures
            r.pts == pts,
            r.repeat_picture == repeat_picture,
            r.keyframe == (keyframe > 0),
            r.original_pts == original_pts,
    {
        FrameInfo { pts, repeat_picture, keyframe: keyframe > 0, original_pts }
    }
}

/// Output frame resolution in pixels.
#[derive(Clone, Copy, Debug, PartialEq, Eq, Structural)]
pub struct FrameResolution {
    /// Frame width.
    pub width: usize,
    /// Frame height.
    pub height: usize,
}

} // verus!
