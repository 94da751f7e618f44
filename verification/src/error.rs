//! Typed errors and the engine's error-code catalog.
//!
//! Every fallible engine-style operation reports its failure through a
//! typed [`Error`].  Failures that originate in the indexing core carry a
//! coarse [`ErrorKind`] and a finer [`ErrorSubkind`], both drawn from a
//! closed catalog of integer codes; the remaining variants are raised by
//! the wrapper layer itself before any engine-style work is attempted
//! (path checks, range checks, rejection of unknown enumeration values).

use vstd::prelude::*;

verus! {

/// Coarse error kind: where an engine-style failure occurred.
#[derive(Clone, Copy, Debug, PartialEq, Eq, Structural)]
pub enum ErrorKind {
    /// Index file handling.
    Index,
    /// Indexing.
    Indexing,
    /// Video post-processing.
    Postprocessing,
    /// Image scaling.
    Scaling,
    /// Audio/Video decoding.
    Decoding,
    /// Seeking.
    Seeking,
    /// File parsing.
    Parser,
    /// Track handling.
    Track,
    /// WAVE64 file writer.
    WaveWriter,
    /// Operation aborted.
    Cancelled,
    /// Audio resampling.
    Resampling,
    /// No recognized kind.
    Unknown,
}

/// Finer error subkind: what caused an engine-style failure.
#[derive(Clone, Copy, Debug, PartialEq, Eq, Structural)]
pub enum ErrorSubkind {
    /// Unknown error.
    Unknown,
    /// Format or operation is not supported.
    Unsupported,
    /// Cannot read from file.
    FileRead,
    /// Cannot write to file.
    FileWrite,
    /// No such file or directory.
    NoFile,
    /// Wrong version.
    Version,
    /// Out of memory.
    AllocationFailed,
    /// Invalid argument.
    InvalidArgument,
    /// Decoder error.
    Codec,
    /// Requested mode or operation unavailable.
    NotAvailable,
    /// Provided index does not match the file.
    FileMismatch,
    /// Error caused by a user.
    UserCaused,
}

/// The catalog code of each coarse error kind.
pub open spec fn spec_error_kind_code(kind: ErrorKind) -> int {
    match kind {
        ErrorKind::Index => 1,
        ErrorKind::Indexing => 2,
        ErrorKind::Postprocessing => 3,
        ErrorKind::Scaling => 4,
        ErrorKind::Decoding => 5,
        ErrorKind::Seeking => 6,
        ErrorKind::Parser => 7,
        ErrorKind::Track => 8,
        ErrorKind::WaveWriter => 9,
        ErrorKind::Cancelled => 10,
        ErrorKind::Resampling => 11,
        ErrorKind::Unknown => 20,
    }
}

/// The coarse error kind a catalog code stands for; unrecognized codes
/// fall back to `Unknown`.
pub open spec fn spec_error_kind_of_code(code: int) -> ErrorKind {
    if code == 1 {
        ErrorKind::Index
    } else if code == 2 {
        ErrorKind::Indexing
    } else if code == 3 {
        ErrorKind::Postprocessing
    } else if code == 4 {
        ErrorKind::Scaling
    } else if code == 5 {
        ErrorKind::Decoding
    } else if code == 6 {
        ErrorKind::Seeking
    } else if code == 7 {
        ErrorKind::Parser
    } else if code == 8 {
        ErrorKind::Track
    } else if code == 9 {
        ErrorKind::WaveWriter
    } else if code == 10 {
        ErrorKind::Cancelled
    } else if code == 11 {
        ErrorKind::Resampling
    } else {
        ErrorKind::Unknown
    }
}

/// The catalog code of each error subkind.
pub open spec fn spec_error_subkind_code(subkind: ErrorSubkind) -> int {
    match subkind {
        ErrorSubkind::Unknown => 20,
        ErrorSubkind::Unsupported => 21,
        ErrorSubkind::FileRead => 22,
        ErrorSubkind::FileWrite => 23,
        ErrorSubkind::NoFile => 24,
        ErrorSubkind::Version => 25,
        ErrorSubkind::AllocationFailed => 26,
        ErrorSubkind::InvalidArgument => 27,
        ErrorSubkind::Codec => 28,
        ErrorSubkind::NotAvailable => 29,
        ErrorSubkind::FileMismatch => 30,
        ErrorSubkind::UserCaused => 31,
    }
}

/// The error subkind a catalog code stands for; unrecognized codes fall
/// back to `Unknown`.
pub open spec fn spec_error_subkind_of_code(code: int) -> ErrorSubkind {
    if code == 21 {
        ErrorSubkind::Unsupported
    } else if code == 22 {
        ErrorSubkind::FileRead
    } else if code == 23 {
        ErrorSubkind::FileWrite
    } else if code == 24 {
        ErrorSubkind::NoFile
    } else if code == 25 {
        ErrorSubkind::Version
    } else if code == 26 {
        ErrorSubkind::AllocationFailed
    } else if code == 27 {
        ErrorSubkind::InvalidArgument
    } else if code == 28 {
        ErrorSubkind::Codec
    } else if code == 29 {
        ErrorSubkind::NotAvailable
    } else if code == 30 {
        ErrorSubkind::FileMismatch
    } else if code == 31 {
        ErrorSubkind::UserCaused
    } else {
        ErrorSubkind::Unknown
    }
}

impl ErrorKind {
    /// Returns the catalog code of this error kind.
    pub fn code(self) -> (r: i32)
        ensures
            r == spec_error_kind_code(self),
    {
        match self {
            Self::Index => 1,
            Self::Indexing => 2,
            Self::Postprocessing => 3,
            Self::Scaling => 4,
            Self::Decoding => 5,
            Self::Seeking => 6,
            Self::Parser => 7,
            Self::Track => 8,
            Self::WaveWriter => 9,
            Self::Cancelled => 10,
            Self::Resampling => 11,
            Self::Unknown => 20,
        }
    }

    /// Builds an `ErrorKind` from its catalog code; unrecognized codes map
    /// to `Unknown`.
    pub fn new(code: i32) -> (r: Self)
        ensures
            r == spec_error_kind_of_code(code as int),
    {
        match code {
            1 => Self::Index,
            2 => Self::Indexing,
            3 => Self::Postprocessing,
            4 => Self::Scaling,
            5 => Self::Decoding,
            6 => Self::Seeking,
            7 => Self::Parser,
            8 => Self::Track,
            9 => Self::WaveWriter,
            10 => Self::Cancelled,
            11 => Self::Resampling,
            _ => Self::Unknown,
        }
    }
}

impl ErrorSubkind {
    /// Returns the catalog code of this error subkind.
    pub fn code(self) -> (r: i32)
        ensures
            r == spec_error_subkind_code(self),
    {
        match self {
            Self::Unknown => 20,
            Self::Unsupported => 21,
            Self::FileRead => 22,
            Self::FileWrite => 23,
            Self::NoFile => 24,
            Self::Version => 25,
            Self::AllocationFailed => 26,
            Self::InvalidArgument => 27,
            Self::Codec => 28,
            Self::NotAvailable => 29,
            Self::FileMismatch => 30,
            Self::UserCaused => 31,
        }
    }

    /// Builds an `ErrorSubkind` from its catalog code; unrecognized codes
    /// map to `Unknown`.
    pub fn new(code: i32) -> (r: Self)
        ensures
            r == spec_error_subkind_of_code(code as int),
    {
        match code {
            21 => Self::Unsupported,
            22 => Self::FileRead,
            23 => Self::FileWrite,
            24 => Self::NoFile,
            25 => Self::Version,
            26 => Self::AllocationFailed,
            27 => Self::InvalidArgument,
            28 => Self::Codec,
            29 => Self::NotAvailable,
            30 => Self::FileMismatch,
            31 => Self::UserCaused,
            _ => Self::Unknown,
        }
    }
}

/// The description of a coarse error-kind catalog code.
pub open spec fn spec_main_types_error(error: int) -> Seq<char> {
    if error == 0 {
        "Success."@
    } else if error == 1 {
        "Index File Handling."@
    } else if error == 2 {
        "Indexing."@
    } else if error == 3 {
        "Video Post-Processing."@
    } else if error == 4 {
        "Image Scaling."@
    } else if error == 5 {
        "Audio/Video Decoding."@
    } else if error == 6 {
        "Seeking."@
    } else if error == 7 {
        "File Parsing."@
    } else if error == 8 {
        "Track Handling."@
    } else if error == 9 {
        "Wave writer."@
    } else if error == 10 {
        "Operation Aborted."@
    } else if error == 11 {
        "Audio Resampling."@
    } else {
        "Unknown."@
    }
}

/// Describes a coarse error-kind catalog code.
pub fn ffms2_main_types_error(error: i32) -> (r: &'static str)
    ensures
        r@ == spec_main_types_error(error as int),
{
    match error {
        0 => "Success.",
        1 => "Index File Handling.",
        2 => "Indexing.",
        3 => "Video Post-Processing.",
        4 => "Image Scaling.",
        5 => "Audio/Video Decoding.",
        6 => "Seeking.",
        7 => "File Parsing.",
        8 => "Track Handling.",
        9 => "Wave writer.",
        10 => "Operation Aborted.",
        11 => "Audio Resampling.",
        _ => "Unknown.",
    }
}

/// The description of an error-subkind catalog code.
pub open spec fn spec_subtypes_error(error: int) -> Seq<char> {
    if error == 20 {
        "Unknown."@
    } else if error == 21 {
        "Format or Operation Unsupported."@
    } else if error == 22 {
        "Impossible to read file."@
    } else if error == 23 {
        "Impossible to write file."@
    } else if error == 24 {
        "No file."@
    } else if error == 25 {
        "Wrong Version."@
    } else if error == 26 {
        "Allocation failed, Out of Memory."@
    } else if error == 27 {
        "Invalid argument."@
    } else if error == 28 {
        "Failed Decoder Operation."@
    } else if error == 29 {
        "Not available Mode or Operation."@
    } else if error == 30 {
        "Index Mismatch File."@
    } else if error == 31 {
        "User Error."@
    } else {
        "Unknown."@
    }
}

/// Describes an error-subkind catalog code.
pub fn ffms2_subtypes_error(error: i32) -> (r: &'static str)
    ensures
        r@ == spec_subtypes_error(error as int),
{
    match error {
        20 => "Unknown.",
        21 => "Format or Operation Unsupported.",
        22 => "Impossible to read file.",
        23 => "Impossible to write file.",
        24 => "No file.",
        25 => "Wrong Version.",
        26 => "Allocation failed, Out of Memory.",
        27 => "Invalid argument.",
        28 => "Failed Decoder Operation.",
        29 => "Not available Mode or Operation.",
        30 => "Index Mismatch File.",
        31 => "User Error.",
        _ => "Unknown.",
    }
}

/// The size in bytes of the diagnostic text buffer of an `InternalError`.
pub const ERROR_BUFFER_SIZE: usize = 1024;

/// The error-info record passed by mutable reference into every fallible
/// engine-style call: a kind code, a subkind code and a fixed-capacity
/// diagnostic text buffer, all zeroed at creation.
pub struct InternalError {
    /// Coarse error-kind catalog code.
    pub error_type: i32,
    /// Error-subkind catalog code.
    pub sub_type: i32,
    /// Diagnostic text buffer; unused bytes stay zero.
    pub buffer: Vec<u8>,
}

impl InternalError {
    /// Creates a zeroed error record with a zero-filled text buffer of
    /// `ERROR_BUFFER_SIZE` bytes.
    pub fn new() -> (r: Self)
        ensures
            r.error_type == 0,
            r.sub_type == 0,
            r.buffer@.len() == ERROR_BUFFER_SIZE,
            forall|i: int| 0 <= i < r.buffer@.len() ==> r.buffer@[i] == 0u8,
    {
        let mut buffer: Vec<u8> = Vec::new();
        let mut i: usize = 0;
        while i < ERROR_BUFFER_SIZE
            invariant
                i <= ERROR_BUFFER_SIZE,
                buffer@.len() == i,
                forall|j: int| 0 <= j < buffer@.len() ==> buffer@[j] == 0u8,
            decreases ERROR_BUFFER_SIZE - i,
        {
            buffer.push(0u8);
            i = i + 1;
        }
        InternalError { error_type: 0, sub_type: 0, buffer }
    }
}

/// All error types.
#[derive(Clone, Copy, Debug, PartialEq, Eq, Structural)]
pub enum Error {
    /// An engine-style failure, carrying its coarse kind and its subkind.
    FFMS2(ErrorKind, ErrorSubkind),
    /// The path is not a file.
    NotAFile,
    /// Failure in retrieving the track.
    Track,
    /// Wrong track number.
    WrongTrack,
    /// Unknown track type.
    UnknownTrackType,
    /// Wrong audio sample range.
    WrongSampleRange,
    /// Unknown audio sample format.
    UknownSampleFormat,
    /// Unknown audio channel.
    UknownAudioChannel,
    /// Failure in getting frames.
    Frames,
    /// Wrong frame number.
    WrongFrame,
    /// Wrong timestamp.
    WrongTimestamp,
    /// Failure in converting an operating system string into a string.
    StrConversion,
}

/// The short description of each error.
pub open spec fn spec_error_message(error: Error) -> Seq<char> {
    match error {
        Error::FFMS2(_, _) => "ffms2 API error."@,
        Error::NotAFile => "The path is not a file."@,
        Error::Track => "Failed to get the track."@,
        Error::WrongTrack => "Wrong track number."@,
        Error::UnknownTrackType => "Unknown track type."@,
        Error::WrongSampleRange => "Wrong audio sample range."@,
        Error::UknownSampleFormat => "Unknown audio sample format."@,
        Error::UknownAudioChannel => "Unknown audio channel."@,
        Error::Frames => "Failed to get frames."@,
        Error::WrongFrame => "Wrong frame number."@,
        Error::WrongTimestamp => "Wrong timestamp."@,
        Error::StrConversion => "str convervion error."@,
    }
}

impl Error {
    /// Returns a short description of the error.
    pub fn message(&self) -> (r: &'static str)
        ensures
            r@ == spec_error_message(*self),
    {
        match self {
            Self::FFMS2(_, _) => "ffms2 API error.",
            Self::NotAFile => "The path is not a file.",
            Self::Track => "Failed to get the track.",
            Self::WrongTrack => "Wrong track number.",
            Self::UnknownTrackType => "Unknown track type.",
            Self::WrongSampleRange => "Wrong audio sample range.",
            Self::UknownSampleFormat => "Unknown audio sample format.",
            Self::UknownAudioChannel => "Unknown audio channel.",
            Self::Frames => "Failed to get frames.",
            Self::WrongFrame => "Wrong frame number.",
            Self::WrongTimestamp => "Wrong timestamp.",
            Self::StrConversion => "str convervion error.",
        }
    }
}

impl From<InternalError> for Error {
    /// Converts the raw error record into a typed error through the
    /// catalog code mappings.
    fn from(internal_error: InternalError) -> (r: Self) {
        Error::FFMS2(
            ErrorKind::new(internal_error.error_type),
            ErrorSubkind::new(internal_error.sub_type),
        )
    }
}

impl vstd::std_specs::convert::FromSpecImpl<InternalError> for Error {
    open spec fn obeys_from_spec() -> bool {
        true
    }

    open spec fn from_spec(internal_error: InternalError) -> Error {
        Error::FFMS2(
            spec_error_kind_of_code(internal_error.error_type as int),
            spec_error_subkind_of_code(internal_error.sub_type as int),
        )
    }
}

/// A specialized `Result` type.
pub type Result<T> = core::result::Result<T, Error>;

} // verus!
