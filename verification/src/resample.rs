//! Audio resampling parameter enumerations.
//!
//! The resampling arithmetic itself is the engine's work and stays
//! outside this library; these enumerations carry the closed catalogs of
//! resampling choices and their engine integer codes.

use vstd::prelude::*;

verus! {

/// Surround Sound Matrix Encoding.
///
/// Matrix encoding is an audio technique which transforms N-channel
/// signals to M-channel signals, where N > M, enabling the same audio
/// content to be played on different systems.
#[derive(Clone, Copy, Debug, PartialEq, Eq, Structural)]
pub enum MatrixEncoding {
    /// No matrix encoding.
    NoEncoding,
    /// Dolby.
    Dolby,
    /// Dolby Surround Pro Logic II.
    ProLogicII,
    /// Dolby Surround Pro Logic IIX.
    ProLogicIIX,
    /// Dolby Surround Pro Logic IIZ.
    ProLogicIIZ,
    /// Dolby Digital Ex.
    DolbyEx,
    /// Dolby Headphone.
    DolbyHeadphone,
}

/// The engine code of each matrix encoding.
pub open spec fn spec_matrix_encoding_code(encoding: MatrixEncoding) -> int {
    match encoding {
        MatrixEncoding::NoEncoding => 0,
        MatrixEncoding::Dolby => 1,
        MatrixEncoding::ProLogicII => 2,
        MatrixEncoding::ProLogicIIX => 3,
        MatrixEncoding::ProLogicIIZ => 4,
        MatrixEncoding::DolbyEx => 5,
        MatrixEncoding::DolbyHeadphone => 6,
    }
}

/// The matrix encoding an engine code stands for, when defined.
pub open spec fn spec_matrix_encoding_of_code(code: int) -> Option<MatrixEncoding> {
    if code == 0 {
        Some(MatrixEncoding::NoEncoding)
    } else if code == 1 {
        Some(MatrixEncoding::Dolby)
    } else if code == 2 {
        Some(MatrixEncoding::ProLogicII)
    } else if code == 3 {
        Some(MatrixEncoding::ProLogicIIX)
    } else if code == 4 {
        Some(MatrixEncoding::ProLogicIIZ)
    } else if code == 5 {
        Some(MatrixEncoding::DolbyEx)
    } else if code == 6 {
        Some(MatrixEncoding::DolbyHeadphone)
    } else {
        None
    }
}

impl MatrixEncoding {
    /// Builds a `MatrixEncoding` from its engine integer code; codes
    /// outside the catalog are rejected.
    pub fn new(matrix_encoding: i32) -> (r: Option<Self>)
        ensures
            r == spec_matrix_encoding_of_code(matrix_encoding as int),
    {
        match matrix_encoding {
            0 => Some(Self::NoEncoding),
            1 => Some(Self::Dolby),
            2 => Some(Self::ProLogicII),
            3 => Some(Self::ProLogicIIX),
            4 => Some(Self::ProLogicIIZ),
            5 => Some(Self::DolbyEx),
            6 => Some(Self::DolbyHeadphone),
            _ => None,
        }
    }

    /// Returns the engine integer code of this matrix encoding.
    pub fn into_ffms2(self) -> (r: i32)
        ensures
            r == spec_matrix_encoding_code(self),
    {
        match self {
            Self::NoEncoding => 0,
            Self::Dolby => 1,
            Self::ProLogicII => 2,
            Self::ProLogicIIX => 3,
            Self::ProLogicIIZ => 4,
            Self::DolbyEx => 5,
            Self::DolbyHeadphone => 6,
        }
    }
}

/// Audio sample formats.
#[derive(Clone, Copy, Debug, PartialEq, Eq, Structural)]
pub enum SampleFormat {
    /// One 8-bit unsigned integer per sample.
    U8,
    /// One 16-bit signed integer per sample.
    S16,
    /// One 32-bit signed integer per sample.
    S32,
    /// One 32-bit (single precision) floating point value per sample.
    Flt,
    /// One 64-bit (double precision) floating point value per sample.
    Dbl,
}

/// The engine code of each sample format.
pub open spec fn spec_sample_format_code(format: SampleFormat) -> int {
    match format {
        SampleFormat::U8 => 0,
        SampleFormat::S16 => 1,
        SampleFormat::S32 => 2,
        SampleFormat::Flt => 3,
        SampleFormat::Dbl => 4,
    }
}

/// The sample format an engine code stands for, when defined.
pub open spec fn spec_sample_format_of_code(code: int) -> Option<SampleFormat> {
    if code == 0 {
        Some(SampleFormat::U8)
    } else if code == 1 {
        Some(SampleFormat::S16)
    } else if code == 2 {
        Some(SampleFormat::S32)
    } else if code == 3 {
        Some(SampleFormat::Flt)
    } else if code == 4 {
        Some(SampleFormat::Dbl)
    } else {
        None
    }
}

impl SampleFormat {
    /// Builds a `SampleFormat` from its engine integer code; codes
    /// outside the catalog are rejected.
    pub fn new(ffms2_sample_format: usize) -> (r: Option<Self>)
        ensures
            r == spec_sample_format_of_code(ffms2_sample_format as int),
    {
        match ffms2_sample_format {
            0 => Some(Self::U8),
            1 => Some(Self::S16),
            2 => Some(Self::S32),
            3 => Some(Self::Flt),
            4 => Some(Self::Dbl),
            _ => None,
        }
    }

    /// Returns the engine integer code of this sample format.
    pub fn into_ffms2(self) -> (r: i32)
        ensures
            r == spec_sample_format_code(self),
    {
        match self {
            Self::U8 => 0,
            Self::S16 => 1,
            Self::S32 => 2,
            Self::Flt => 3,
            Self::Dbl => 4,
        }
    }
}

/// Resampling filter types.
#[derive(Clone, Copy, Debug, PartialEq, Eq, Structural)]
pub enum ResampleFilterType {
    /// Cubic.
    Cubic,
    /// Blackman Nuttall Windowed Sinc.
    Sinc,
    /// Kaiser Windowed Sinc.
    ///
    /// The input parameter is the beta value for the Kaiser window.
    Kaiser(usize),
}

/// The engine code of each resampling filter type.
pub open spec fn spec_resample_filter_code(filter: ResampleFilterType) -> int {
    match filter {
        ResampleFilterType::Cubic => 0,
        ResampleFilterType::Sinc => 1,
        ResampleFilterType::Kaiser(_) => 2,
    }
}

/// The resampling filter an engine code stands for, when defined; a
/// Kaiser filter carries the given beta value.
pub open spec fn spec_resample_filter_of_code(code: int, kaiser_beta: usize) -> Option<
    ResampleFilterType,
> {
    if code == 0 {
        Some(ResampleFilterType::Cubic)
    } else if code == 1 {
        Some(ResampleFilterType::Sinc)
    } else if code == 2 {
        Some(ResampleFilterType::Kaiser(kaiser_beta))
    } else {
        None
    }
}

impl ResampleFilterType {
    /// Builds a `ResampleFilterType` from its engine integer code and the
    /// Kaiser beta value; codes outside the catalog are rejected.
    pub fn new(resample_filter_type: i32, kaiser_beta: usize) -> (r: Option<Self>)
        ensures
            r == spec_resample_filter_of_code(resample_filter_type as int, kaiser_beta),
    {
        match resample_filter_type {
            0 => Some(Self::Cubic),
            1 => Some(Self::Sinc),
            2 => Some(Self::Kaiser(kaiser_beta)),
            _ => None,
        }
    }

    /// Returns the Kaiser beta value and the engine integer code of this
    /// filter type; filters without a beta value report zero.  A Kaiser
    /// beta must fit the engine's 32-bit field.
    pub fn into_ffms2(self) -> (r: (i32, i32))
        requires
            self matches ResampleFilterType::Kaiser(beta) ==> beta <= i32::MAX,
        ensures
            r.1 == spec_resample_filter_code(self),
            self matches ResampleFilterType::Kaiser(beta) ==> r.0 == beta,
            !(self matches ResampleFilterType::Kaiser(_)) ==> r.0 == 0,
    {
        match self {
            Self::Cubic => (0, 0),
            Self::Sinc => (0, 1),
            Self::Kaiser(kaiser_beta) => (kaiser_beta as i32, 2),
        }
    }
}

/// Audio dither methods.
#[derive(Clone, Copy, Debug, PartialEq, Eq, Structural)]
pub enum AudioDitherMethod {
    /// Do not use dithering.
    NoDither,
    /// Rectangular.
    Rectangular,
    /// Triangular.
    Triangular,
    /// Triangular dither with High Pass.
    TriangularHighPass,
    /// Triangular dither with Noise Shaping.
    TriangularNoiseShaping,
}

/// The engine code of each dither method.
pub open spec fn spec_dither_method_code(method: AudioDitherMethod) -> int {
    match method {
        AudioDitherMethod::NoDither => 0,
        AudioDitherMethod::Rectangular => 1,
        AudioDitherMethod::Triangular => 2,
        AudioDitherMethod::TriangularHighPass => 3,
        AudioDitherMethod::TriangularNoiseShaping => 4,
    }
}

/// The dither method an engine code stands for, when defined.
pub open spec fn spec_dither_method_of_code(code: int) -> Option<AudioDitherMethod> {
    if code == 0 {
        Some(AudioDitherMethod::NoDither)
    } else if code == 1 {
        Some(AudioDitherMethod::Rectangular)
    } else if code == 2 {
        Some(AudioDitherMethod::Triangular)
    } else if code == 3 {
        Some(AudioDitherMethod::TriangularHighPass)
    } else if code == 4 {
        Some(AudioDitherMethod::TriangularNoiseShaping)
    } else {
        None
    }
}

impl AudioDitherMethod {
    /// Builds an `AudioDitherMethod` from its engine integer code; codes
    /// outside the catalog are rejected.
    pub fn new(audio_dither_method: i32) -> (r: Option<Self>)
        ensures
            r == spec_dither_method_of_code(audio_dither_method as int),
    {
        match audio_dither_method {
            0 => Some(Self::NoDither),
            1 => Some(Self::Rectangular),
            2 => Some(Self::Triangular),
            3 => Some(Self::TriangularHighPass),
            4 => Some(Self::TriangularNoiseShaping),
            _ => None,
        }
    }

    /// Returns the engine integer code of this dither method.
    pub fn into_ffms2(self) -> (r: i32)
        ensures
            r == spec_dither_method_code(self),
    {
        match self {
            Self::NoDither => 0,
            Self::Rectangular => 1,
            Self::Triangular => 2,
            Self::TriangularHighPass => 3,
            Self::TriangularNoiseShaping => 4,
        }
    }
}

/// Channel mixing matrix coefficient types.
#[derive(Clone, Copy, Debug, PartialEq, Eq, Structural)]
pub enum MixingCoefficientType {
    /// 8 bit.
    Q8,
    /// 16-bit, 8.8 fixed-point.
    Q15,
    /// Floating point.
    Flt,
}

/// The engine code of each mixing coefficient type.
pub open spec fn spec_mixing_coefficient_code(coefficient: MixingCoefficientType) -> int {
    match coefficient {
        MixingCoefficientType::Q8 => 0,
        MixingCoefficientType::Q15 => 1,
        MixingCoefficientType::Flt => 2,
    }
}

/// The mixing coefficient type an engine code stands for, when defined.
pub open spec fn spec_mixing_coefficient_of_code(code: int) -> Option<MixingCoefficientType> {
    if code == 0 {
        Some(MixingCoefficientType::Q8)
    } else if code == 1 {
        Some(MixingCoefficientType::Q15)
    } else if code == 2 {
        Some(MixingCoefficientType::Flt)
    } else {
        None
    }
}

impl MixingCoefficientType {
    /// Builds a `MixingCoefficientType` from its engine integer code;
    /// codes outside the catalog are rejected.
    pub fn new(mixing_coefficient_type: i32) -> (r: Option<Self>)
        ensures
            r == spec_mixing_coefficient_of_code(mixing_coefficient_type as int),
    {
        match mixing_coefficient_type {
            0 => Some(Self::Q8),
            1 => Some(Self::Q15),
            2 => Some(Self::Flt),
            _ => None,
        }
    }

    /// Returns the engine integer code of this mixing coefficient type.
    pub fn into_ffms2(self) -> (r: i32)
        ensures
            r == spec_mixing_coefficient_code(self),
    {
        match self {
            Self::Q8 => 0,
            Self::Q15 => 1,
            Self::Flt => 2,
        }
    }
}

} // verus!
