//! Audio stream types: channel layouts, gap filling, delay handling, and
//! the audio source handle.

use vstd::prelude::*;

use crate::error::Error;
use crate::index::Index;
use crate::track::{Track, TrackType};

verus! {

/// Audio channel layout of an audio stream.
#[derive(Clone, Copy, Debug, PartialEq, Eq, Structural)]
pub enum AudioChannel {
    /// No known channel.
    Unknown,
    /// Front left.
    FrontLeft,
    /// Front right.
    FrontRight,
    /// Front center.
    FrontCenter,
    /// Low Frequency Effects.
    LowFrequency,
    /// Back left.
    BackLeft,
    /// Back right.
    BackRight,
    /// Front left-of-center.
    FrontLeftOfCenter,
    /// Front right-of-center.
    FrontRightOfCenter,
    /// Back center.
    BackCenter,
    /// Side left.
    SideLeft,
    /// Side right.
    SideRight,
    /// Top center.
    TopCenter,
    /// Top front left.
    TopFrontLeft,
    /// Top front center.
    TopFrontCenter,
    /// Top front right.
    TopFrontRight,
    /// Top back left.
    TopBackLeft,
    /// Top back center.
    TopBackCenter,
    /// Top back right.
    TopBackRight,
    /// Stereo downmix left.
    StereoLeft,
    /// Stereo downmix right.
    StereoRight,
}

/// The bit each audio channel occupies in an engine channel-layout mask;
/// `Unknown` carries no bit.
pub open spec fn spec_channel_bit(channel: AudioChannel) -> i64 {
    match channel {
        AudioChannel::Unknown => 0,
        AudioChannel::FrontLeft => 0x1,
        AudioChannel::FrontRight => 0x2,
        AudioChannel::FrontCenter => 0x4,
        AudioChannel::LowFrequency => 0x8,
        AudioChannel::BackLeft => 0x10,
        AudioChannel::BackRight => 0x20,
        AudioChannel::FrontLeftOfCenter => 0x40,
        AudioChannel::FrontRightOfCenter => 0x80,
        AudioChannel::BackCenter => 0x100,
        AudioChannel::SideLeft => 0x200,
        AudioChannel::SideRight => 0x400,
        AudioChannel::TopCenter => 0x800,
        AudioChannel::TopFrontLeft => 0x1000,
        AudioChannel::TopFrontCenter => 0x2000,
        AudioChannel::TopFrontRight => 0x4000,
        AudioChannel::TopBackLeft => 0x8000,
        AudioChannel::TopBackCenter => 0x10000,
        AudioChannel::TopBackRight => 0x20000,
        AudioChannel::StereoLeft => 0x20000000,
        AudioChannel::StereoRight => 0x40000000,
    }
}

/// The catalog of nameable channels, in the order a channel map lists
/// them.
pub open spec fn spec_channel_catalog() -> Seq<AudioChannel> {
    seq![
        AudioChannel::FrontLeft,
        AudioChannel::FrontRight,
        AudioChannel::FrontCenter,
        AudioChannel::LowFrequency,
        AudioChannel::BackLeft,
        AudioChannel::BackRight,
        AudioChannel::FrontLeftOfCenter,
        AudioChannel::FrontRightOfCenter,
        AudioChannel::BackCenter,
        AudioChannel::SideLeft,
        AudioChannel::SideRight,
        AudioChannel::TopCenter,
        AudioChannel::TopFrontLeft,
        AudioChannel::TopFrontCenter,
        AudioChannel::TopFrontRight,
        AudioChannel::TopBackLeft,
        AudioChannel::TopBackCenter,
        AudioChannel::TopBackRight,
        AudioChannel::StereoLeft,
        AudioChannel::StereoRight,
    ]
}

/// The channels of the catalog list whose bits are set in the mask, in
/// order.
pub open spec fn spec_collect_channels(catalog: Seq<AudioChannel>, mask: i64) -> Seq<AudioChannel>
    decreases catalog.len(),
{
    if catalog.len() == 0 {
        Seq::empty()
    } else if mask & spec_channel_bit(catalog.first()) != 0 {
        seq![catalog.first()] + spec_collect_channels(catalog.drop_first(), mask)
    } else {
        spec_collect_channels(catalog.drop_first(), mask)
    }
}

/// The channels whose bits are set in an engine channel-layout mask, in
/// catalog order.
pub open spec fn spec_channel_map(mask: i64) -> Seq<AudioChannel> {
    spec_collect_channels(spec_channel_catalog(), mask)
}

/// `spec_collect_channels` grows one catalog entry at a time.
proof fn lemma_collect_channels_snoc(catalog: Seq<AudioChannel>, c: AudioChannel, mask: i64)
    ensures
        spec_collect_channels(catalog.push(c), mask) == spec_collect_channels(catalog, mask) + (
        if mask & spec_channel_bit(c) != 0 {
            seq![c]
        } else {
            Seq::<AudioChannel>::empty()
        }),
    decreases catalog.len(),
{
    let tail = if mask & spec_channel_bit(c) != 0 {
        seq![c]
    } else {
        Seq::<AudioChannel>::empty()
    };
    if catalog.len() == 0 {
        assert(catalog.push(c).drop_first() =~= Seq::<AudioChannel>::empty());
        assert(catalog =~= Seq::<AudioChannel>::empty());
        assert(spec_collect_channels(catalog.push(c), mask) =~= spec_collect_channels(
            catalog,
            mask,
        ) + tail);
    } else {
        assert(catalog.push(c).first() == catalog.first());
        assert(catalog.push(c).drop_first() =~= catalog.drop_first().push(c));
        lemma_collect_channels_snoc(catalog.drop_first(), c, mask);
        assert(spec_collect_channels(catalog.push(c), mask) =~= spec_collect_channels(
            catalog,
            mask,
        ) + tail);
    }
}

/// The engine channel-layout mask of a list of channels: the bitwise or
/// of their bits.
pub open spec fn spec_channels_mask(channels: Seq<AudioChannel>) -> i64
    decreases channels.len(),
{
    if channels.len() == 0 {
        0
    } else {
        spec_channels_mask(channels.drop_last()) | spec_channel_bit(channels.last())
    }
}

impl AudioChannel {
    /// Returns the bit this channel occupies in an engine channel-layout
    /// mask; `Unknown` carries no bit.
    pub fn bit(self) -> (r: i64)
        ensures
            r == spec_channel_bit(self),
    {
        match self {
            Self::Unknown => 0,
            Self::FrontLeft => 0x1,
            Self::FrontRight => 0x2,
            Self::FrontCenter => 0x4,
            Self::LowFrequency => 0x8,
            Self::BackLeft => 0x10,
            Self::BackRight => 0x20,
            Self::FrontLeftOfCenter => 0x40,
            Self::FrontRightOfCenter => 0x80,
            Self::BackCenter => 0x100,
            Self::SideLeft => 0x200,
            Self::SideRight => 0x400,
            Self::TopCenter => 0x800,
            Self::TopFrontLeft => 0x1000,
            Self::TopFrontCenter => 0x2000,
            Self::TopFrontRight => 0x4000,
            Self::TopBackLeft => 0x8000,
            Self::TopBackCenter => 0x10000,
            Self::TopBackRight => 0x20000,
            Self::StereoLeft => 0x20000000,
            Self::StereoRight => 0x40000000,
        }
    }

    /// Returns the catalog of nameable channels, in the order a channel
    /// map lists them.
    pub fn catalog() -> (r: Vec<AudioChannel>)
        ensures
            r@ == spec_channel_catalog(),
    {
        let mut catalog: Vec<AudioChannel> = Vec::new();
        catalog.push(Self::FrontLeft);
        catalog.push(Self::FrontRight);
        catalog.push(Self::FrontCenter);
        catalog.push(Self::LowFrequency);
        catalog.push(Self::BackLeft);
        catalog.push(Self::BackRight);
        catalog.push(Self::FrontLeftOfCenter);
        catalog.push(Self::FrontRightOfCenter);
        catalog.push(Self::BackCenter);
        catalog.push(Self::SideLeft);
        catalog.push(Self::SideRight);
        catalog.push(Self::TopCenter);
        catalog.push(Self::TopFrontLeft);
        catalog.push(Self::TopFrontCenter);
        catalog.push(Self::TopFrontRight);
        catalog.push(Self::TopBackLeft);
        catalog.push(Self::TopBackCenter);
        catalog.push(Self::TopBackRight);
        catalog.push(Self::StereoLeft);
        catalog.push(Self::StereoRight);
        proof {
            assert(catalog@ =~= spec_channel_catalog());
        }
        catalog
    }

    /// Returns the channels named by an engine channel-layout mask, in
    /// catalog order, or `None` when the mask names no channel.
    pub fn channel_map(audio_channel: i64) -> (r: Option<Vec<AudioChannel>>)
        ensures
            spec_channel_map(audio_channel).len() == 0 ==> r is None,
            spec_channel_map(audio_channel).len() > 0 ==> (r matches Some(channels) && channels@
                == spec_channel_map(audio_channel)),
    {
        let catalog = Self::catalog();
        let mut channels: Vec<AudioChannel> = Vec::new();
        let mut i: usize = 0;
        while i < catalog.len()
            invariant
                i <= catalog@.len(),
                catalog@ == spec_channel_catalog(),
                channels@ == spec_collect_channels(catalog@.take(i as int), audio_channel),
            decreases catalog@.len() - i,
        {
            let channel = catalog[i];
            if audio_channel & channel.bit() != 0 {
                channels.push(channel);
            }
            proof {
                lemma_collect_channels_snoc(
                    catalog@.take(i as int),
                    catalog@[i as int],
                    audio_channel,
                );
                assert(catalog@.take(i as int).push(catalog@[i as int]) =~= catalog@.take(
                    i + 1 as int,
                ));
                assert(channels@ =~= spec_collect_channels(
                    catalog@.take(i + 1 as int),
                    audio_channel,
                ));
            }
            i = i + 1;
        }
        proof {
            assert(catalog@.take(catalog@.len() as int) =~= catalog@);
        }
        if channels.len() == 0 {
            None
        } else {
            Some(channels)
        }
    }

    /// Returns the engine channel-layout mask naming the given channels.
    pub fn into_ffms2(channels_map: &[AudioChannel]) -> (r: i64)
        ensures
            r == spec_channels_mask(channels_map@),
    {
        let mut acc: i64 = 0;
        let mut i: usize = 0;
        while i < channels_map.len()
            invariant
                i <= channels_map@.len(),
                acc == spec_channels_mask(channels_map@.take(i as int)),
            decreases channels_map@.len() - i,
        {
            let bit = vstd::slice::slice_index_get(channels_map, i).bit();
            acc = acc | bit;
            proof {
                assert(channels_map@.take(i + 1 as int).drop_last() =~= channels_map@.take(
                    i as int,
                ));
                assert(channels_map@.take(i + 1 as int).last() == channels_map@[i as int]);
            }
            i = i + 1;
        }
        proof {
            assert(channels_map@.take(channels_map@.len() as int) =~= channels_map@);
        }
        acc
    }
}

/// Modes to manage audio with discontinuous timestamps.
///
/// Zero filled gaps can be added or not according to the chosen mode.
#[derive(Clone, Copy, Debug, PartialEq, Eq, Structural)]
pub enum AudioGapFillModes {
    /// Automatic mode.
    ///
    /// Zero filled gaps are applied **only** to audio associated with
    /// containers where this kind of operation is usually necessary.
    Auto,
    /// Disabled mode.
    ///
    /// Never zero fill gaps.
    Disabled,
    /// Enabled mode.
    ///
    /// Always zero fill gaps.
    Enabled,
}

/// The engine code of each gap-fill mode.
pub open spec fn spec_gap_fill_code(mode: AudioGapFillModes) -> int {
    match mode {
        AudioGapFillModes::Auto => 0,
        AudioGapFillModes::Disabled => 1,
        AudioGapFillModes::Enabled => 2,
    }
}

impl AudioGapFillModes {
    /// Returns the engine integer code of this gap-fill mode.
    pub fn ffms2_audio_gap_fill_modes(self) -> (r: i32)
        ensures
            r == spec_gap_fill_code(self),
    {
        match self {
            Self::Auto => 0,
            Self::Disabled => 1,
            Self::Enabled => 2,
        }
    }
}

/// Modes to manage audio delay.
///
/// A possible use case could be how to treat the first audio sample in
/// the file which does not have a timestamp of zero.
#[derive(Clone, Copy, Debug, PartialEq, Eq, Structural)]
pub enum AudioDelay {
    /// No shift mode.
    ///
    /// No adjustment is made.  The first decodable audio sample becomes
    /// the first sample in the output.
    NoShift,
    /// Time zero mode.
    ///
    /// Audio samples are created (with silence) or discarded, so that
    /// the 0-index sample in the decoded audio starts at time zero.
    TimeZero,
    /// First video track mode.
    ///
    /// Audio samples are created (with silence) or discarded, so that
    /// the 0-index sample in the decoded audio starts at the same time
    /// as the 0-index frame of the first video track.
    FirstVideoTrack,
    /// Index track mode.
    ///
    /// Same as `NoShift`, but it acts on the audio samples of the video
    /// track passed as input.
    IndexTrack(usize),
}

/// The engine code of each delay mode; an `IndexTrack` delay carries the
/// track number itself.
pub open spec fn spec_audio_delay_code(delay: AudioDelay) -> int {
    match delay {
        AudioDelay::NoShift => -3,
        AudioDelay::TimeZero => -2,
        AudioDelay::FirstVideoTrack => -1,
        AudioDelay::IndexTrack(track) => track as int,
    }
}

impl AudioDelay {
    /// Returns the engine integer code of this delay mode.  An
    /// `IndexTrack` delay must name a track number that the engine's
    /// 32-bit track field can carry.
    pub fn ffms2_audio_delay(self) -> (r: i32)
        requires
            self matches AudioDelay::IndexTrack(track) ==> track <= i32::MAX,
        ensures
            r == spec_audio_delay_code(self),
    {
        match self {
            Self::NoShift => -3,
            Self::TimeZero => -2,
            Self::FirstVideoTrack => -1,
            Self::IndexTrack(track) => track as i32,
        }
    }
}

/// Audio source manager: a handle over one audio track of an index.
///
/// Decoding and resampling are the engine's work and stay outside this
/// library; the handle carries the indexed track metadata and the delay
/// mode chosen at creation.
pub struct AudioSource {
    /// The indexed audio track this source reads.
    pub track: Track,
    /// The delay mode chosen at creation.
    pub delay: AudioDelay,
}

impl AudioSource {
    /// Creates a new `AudioSource` over the given track of an index.
    ///
    /// Fails with `WrongTrack` when the track number is not below the
    /// index's track count, and with an invalid-argument error when the
    /// named track is not an audio track.
    pub fn new(index: &Index, track: usize, delay_mode: AudioDelay) -> (r: crate::error::Result<
        AudioSource,
    >)
        ensures
            track >= index@.tracks.len() ==> r == Err::<AudioSource, Error>(Error::WrongTrack),
            track < index@.tracks.len() && index@.tracks[track as int].track_type
                != TrackType::Audio ==> r == Err::<AudioSource, Error>(
                Error::FFMS2(
                    crate::error::ErrorKind::Index,
                    crate::error::ErrorSubkind::InvalidArgument,
                ),
            ),
            track < index@.tracks.len() && index@.tracks[track as int].track_type
                == TrackType::Audio ==> (r matches Ok(source) && source.track@ == index@.tracks[
                track as int
            ] && source.delay == delay_mode),
    {
        if track >= index.tracks.len() {
            return Err(Error::WrongTrack);
        }
        if !(index.tracks[track].track_type == TrackType::Audio) {
            proof {
                assert(index@.tracks[track as int].track_type != TrackType::Audio);
            }
            return Err(
                Error::FFMS2(
                    crate::error::ErrorKind::Index,
                    crate::error::ErrorSubkind::InvalidArgument,
                ),
            );
        }
        proof {
            assert(index@.tracks[track as int].track_type == TrackType::Audio);
        }
        Ok(AudioSource { track: index.tracks[track].duplicate(), delay: delay_mode })
    }
}

} // verus!
