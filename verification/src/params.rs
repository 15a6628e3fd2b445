use vstd::prelude::*;

use crate::capabilities::{H264Profile, H265Profile};

verus! {

/// A fraction; the denominator is never zero.
#[derive(Debug, Clone, Copy, PartialEq, Eq, Structural)]
pub struct Rational {
    pub numerator: u32,
    pub denominator: u32,
}

impl Rational {
    pub open spec fn wf(&self) -> bool {
        self.denominator != 0
    }
}

impl From<u32> for Rational {
    fn from(value: u32) -> (r: Self) {
        Rational { numerator: value, denominator: 1 }
    }
}

impl vstd::std_specs::convert::FromSpecImpl<u32> for Rational {
    open spec fn obeys_from_spec() -> bool {
        true
    }

    open spec fn from_spec(value: u32) -> Self {
        Rational { numerator: value, denominator: 1 }
    }
}

/// How the decoder handles missing frames.
#[derive(Debug, Clone, Copy, PartialEq, Eq, Structural)]
pub enum MissedFrameHandling {
    /// When missed frames are detected, error on every subsequent frame that depends on them
    /// (i. e. fail on every frame until an IDR frame arrives)
    Strict,
    /// When missed frames are detected, try to decode later frames that depend on them anyway.
    /// This can produce decoded frames with very visible artifacts.
    Tolerant,
}

impl Default for MissedFrameHandling {
    fn default() -> (r: Self)
        ensures
            r == MissedFrameHandling::Strict,
    {
        MissedFrameHandling::Strict
    }
}

/// What kind of content a decoder is used for.
#[derive(Debug, Clone, Copy, PartialEq, Eq, Structural)]
pub enum DecoderUsage {
    Default,
    Transcoding,
    Offline,
    Streaming,
}

/// `VkVideoDecodeUsageFlagsKHR` values.
pub const VIDEO_DECODE_USAGE_DEFAULT: u32 = 0;
pub const VIDEO_DECODE_USAGE_TRANSCODING: u32 = 0x1;
pub const VIDEO_DECODE_USAGE_OFFLINE: u32 = 0x2;
pub const VIDEO_DECODE_USAGE_STREAMING: u32 = 0x4;

impl DecoderUsage {
    /// The Vulkan decode usage hint for this usage.
    pub fn to_vk(self) -> (r: u32)
        ensures
            r == match self {
                DecoderUsage::Default => VIDEO_DECODE_USAGE_DEFAULT,
                DecoderUsage::Transcoding => VIDEO_DECODE_USAGE_TRANSCODING,
                DecoderUsage::Offline => VIDEO_DECODE_USAGE_OFFLINE,
                DecoderUsage::Streaming => VIDEO_DECODE_USAGE_STREAMING,
            },
            self == DecoderUsage::Default ==> r == 0,
            self == DecoderUsage::Transcoding ==> r == 0x1,
            self == DecoderUsage::Offline ==> r == 0x2,
            self == DecoderUsage::Streaming ==> r == 0x4,
    {
        match self {
            DecoderUsage::Default => VIDEO_DECODE_USAGE_DEFAULT,
            DecoderUsage::Transcoding => VIDEO_DECODE_USAGE_TRANSCODING,
            DecoderUsage::Offline => VIDEO_DECODE_USAGE_OFFLINE,
            DecoderUsage::Streaming => VIDEO_DECODE_USAGE_STREAMING,
        }
    }
}

/// Parameters for decoder creation
#[derive(Debug, Clone, Copy, PartialEq, Eq, Structural)]
pub struct DecoderParameters {
    /// See [`MissedFrameHandling`] for description of different handling approaches.
    pub missed_frame_handling: MissedFrameHandling,
    /// A hint indicating what kind of content the decoder is going to be used for.
    pub usage_flags: DecoderUsage,
    /// How many decode submissions may run at once; `0` decodes synchronously.
    pub max_in_flight_submissions: u32,
}

/// Things the encoder needs to know about the video
#[derive(Debug, Clone, Copy, PartialEq, Eq, Structural)]
pub struct VideoParameters {
    pub width: u32,
    pub height: u32,
    /// The expected/approximate framerate of the encoded video
    pub target_framerate: Rational,
}

impl VideoParameters {
    /// Width and height are non-zero and the framerate has a non-zero denominator.
    pub open spec fn wf(&self) -> bool {
        self.width > 0 && self.height > 0 && self.target_framerate.wf()
    }
}

#[derive(Debug, Clone, Copy, PartialEq, Eq, Structural)]
pub enum ColorSpace {
    Unspecified,
    BT709,
    BT601Ntsc,
    BT601Pal,
}

impl Default for ColorSpace {
    fn default() -> (r: Self)
        ensures
            r == ColorSpace::Unspecified,
    {
        ColorSpace::Unspecified
    }
}

/// Whether the video signal uses the full or limited range of sample values.
#[derive(Debug, Clone, Copy, PartialEq, Eq, Structural)]
pub enum ColorRange {
    /// Luma and chroma use the full [0, 255] range.
    Full,
    /// Luma is restricted to [16, 235] and chroma to [16, 240].
    Limited,
}

/// The colour description of an H.264 sequence parameter set's video signal type.
#[derive(Debug, Clone, Copy, PartialEq, Eq, Structural)]
pub struct ColourDescription {
    pub colour_primaries: u8,
    pub transfer_characteristics: u8,
    pub matrix_coefficients: u8,
}

/// The video signal type of an H.264 sequence parameter set's VUI parameters.
#[derive(Debug, Clone, Copy, PartialEq, Eq, Structural)]
pub struct VideoSignalType {
    pub video_full_range_flag: bool,
    pub colour_description: Option<ColourDescription>,
}

/// What the color conversion reads of a sequence parameter set: the video signal type, when the
/// SPS has VUI parameters with one.
#[derive(Debug, Clone, Copy, PartialEq, Eq, Structural)]
pub struct SpsColorInfo {
    pub video_signal_type: Option<VideoSignalType>,
}

pub open spec fn spec_color_space_of(info: SpsColorInfo) -> ColorSpace {
    match info.video_signal_type {
        Some(vst) => match vst.colour_description {
            Some(cd) => if cd.colour_primaries == 1 && cd.transfer_characteristics == 1
                && cd.matrix_coefficients == 1 {
                ColorSpace::BT709
            } else if cd.colour_primaries == 6 && cd.transfer_characteristics == 6
                && cd.matrix_coefficients == 6 {
                ColorSpace::BT601Ntsc
            } else if cd.colour_primaries == 5 && cd.transfer_characteristics == 6
                && cd.matrix_coefficients == 5 {
                ColorSpace::BT601Pal
            } else {
                ColorSpace::Unspecified
            },
            None => ColorSpace::Unspecified,
        },
        None => ColorSpace::Unspecified,
    }
}

pub open spec fn spec_color_range_of(info: SpsColorInfo) -> ColorRange {
    match info.video_signal_type {
        Some(vst) => if vst.video_full_range_flag {
            ColorRange::Full
        } else {
            ColorRange::Limited
        },
        None => ColorRange::Limited,
    }
}

/// A sequence parameter set signals BT.709 exactly with colour description (1, 1, 1), BT.601
/// NTSC exactly with (6, 6, 6) and BT.601 PAL exactly with (5, 6, 5) as (primaries, transfer,
/// matrix); anything else, or no colour description, is unspecified. Its range is full exactly
/// when its video signal type sets the full-range flag.
pub proof fn law_sps_color_signalling(info: SpsColorInfo)
    ensures
        spec_color_space_of(info) == ColorSpace::BT709 <==> (info.video_signal_type matches Some(v)
            && v.colour_description matches Some(cd) && cd.colour_primaries == 1
            && cd.transfer_characteristics == 1 && cd.matrix_coefficients == 1),
        spec_color_space_of(info) == ColorSpace::BT601Ntsc <==> (info.video_signal_type matches Some(
            v,
        ) && v.colour_description matches Some(cd) && cd.colour_primaries == 6
            && cd.transfer_characteristics == 6 && cd.matrix_coefficients == 6),
        spec_color_space_of(info) == ColorSpace::BT601Pal <==> (info.video_signal_type matches Some(
            v,
        ) && v.colour_description matches Some(cd) && cd.colour_primaries == 5
            && cd.transfer_characteristics == 6 && cd.matrix_coefficients == 5),
        spec_color_range_of(info) == ColorRange::Full <==> (info.video_signal_type matches Some(v)
            && v.video_full_range_flag),
{
}

impl ColorSpace {
    /// The color space a sequence parameter set signals: BT.709 for (1, 1, 1), BT.601 NTSC for
    /// (6, 6, 6) and BT.601 PAL for (5, 6, 5) as (primaries, transfer, matrix); unspecified
    /// otherwise or without a colour description.
    pub fn from_sps(info: &SpsColorInfo) -> (r: Self)
        ensures
            r == spec_color_space_of(*info),
    {
        match &info.video_signal_type {
            Some(vst) => match &vst.colour_description {
                Some(cd) => {
                    if cd.colour_primaries == 1 && cd.transfer_characteristics == 1
                        && cd.matrix_coefficients == 1 {
                        ColorSpace::BT709
                    } else if cd.colour_primaries == 6 && cd.transfer_characteristics == 6
                        && cd.matrix_coefficients == 6 {
                        ColorSpace::BT601Ntsc
                    } else if cd.colour_primaries == 5 && cd.transfer_characteristics == 6
                        && cd.matrix_coefficients == 5 {
                        ColorSpace::BT601Pal
                    } else {
                        ColorSpace::Unspecified
                    }
                },
                None => ColorSpace::Unspecified,
            },
            None => ColorSpace::Unspecified,
        }
    }
}

impl ColorRange {
    /// The range a sequence parameter set signals: full when its video signal type sets the
    /// full-range flag, limited otherwise or without a video signal type.
    pub fn from_sps(info: &SpsColorInfo) -> (r: Self)
        ensures
            r == spec_color_range_of(*info),
    {
        match &info.video_signal_type {
            Some(vst) => {
                if vst.video_full_range_flag {
                    ColorRange::Full
                } else {
                    ColorRange::Limited
                }
            },
            None => ColorRange::Limited,
        }
    }
}

/// The colour description written into an encoded stream.
#[derive(Debug, Clone, Copy, PartialEq, Eq, Structural)]
pub struct CodecColorDescription {
    pub colour_primaries: u8,
    pub transfer_characteristics: u8,
    pub matrix_coefficients: u8,
}

pub open spec fn spec_codec_color_description(color_space: ColorSpace) -> CodecColorDescription {
    match color_space {
        ColorSpace::Unspecified => CodecColorDescription {
            colour_primaries: 2,
            transfer_characteristics: 2,
            matrix_coefficients: 2,
        },
        ColorSpace::BT709 => CodecColorDescription {
            colour_primaries: 1,
            transfer_characteristics: 1,
            matrix_coefficients: 1,
        },
        ColorSpace::BT601Ntsc => CodecColorDescription {
            colour_primaries: 6,
            transfer_characteristics: 6,
            matrix_coefficients: 6,
        },
        ColorSpace::BT601Pal => CodecColorDescription {
            colour_primaries: 5,
            transfer_characteristics: 6,
            matrix_coefficients: 5,
        },
    }
}

/// The colour description written for a colour space, as (primaries, transfer, matrix): (1, 1,
/// 1) for BT.709, (6, 6, 6) for BT.601 NTSC, (5, 6, 5) for BT.601 PAL and (2, 2, 2),
/// "unspecified", for an unspecified one; different colour spaces are written differently.
pub proof fn law_codec_color_descriptions(a: ColorSpace, b: ColorSpace)
    ensures
        spec_codec_color_description(ColorSpace::BT709) == (CodecColorDescription {
            colour_primaries: 1,
            transfer_characteristics: 1,
            matrix_coefficients: 1,
        }),
        spec_codec_color_description(ColorSpace::BT601Ntsc) == (CodecColorDescription {
            colour_primaries: 6,
            transfer_characteristics: 6,
            matrix_coefficients: 6,
        }),
        spec_codec_color_description(ColorSpace::BT601Pal) == (CodecColorDescription {
            colour_primaries: 5,
            transfer_characteristics: 6,
            matrix_coefficients: 5,
        }),
        spec_codec_color_description(ColorSpace::Unspecified) == (CodecColorDescription {
            colour_primaries: 2,
            transfer_characteristics: 2,
            matrix_coefficients: 2,
        }),
        spec_codec_color_description(a) == spec_codec_color_description(b) ==> a == b,
{
}

impl From<ColorSpace> for CodecColorDescription {
    fn from(color_space: ColorSpace) -> (r: Self) {
        match color_space {
            ColorSpace::Unspecified => CodecColorDescription {
                colour_primaries: 2,
                transfer_characteristics: 2,
                matrix_coefficients: 2,
            },
            ColorSpace::BT709 => CodecColorDescription {
                colour_primaries: 1,
                transfer_characteristics: 1,
                matrix_coefficients: 1,
            },
            ColorSpace::BT601Ntsc => CodecColorDescription {
                colour_primaries: 6,
                transfer_characteristics: 6,
                matrix_coefficients: 6,
            },
            ColorSpace::BT601Pal => CodecColorDescription {
                colour_primaries: 5,
                transfer_characteristics: 6,
                matrix_coefficients: 5,
            },
        }
    }
}

impl vstd::std_specs::convert::FromSpecImpl<ColorSpace> for CodecColorDescription {
    open spec fn obeys_from_spec() -> bool {
        true
    }

    open spec fn from_spec(color_space: ColorSpace) -> Self {
        spec_codec_color_description(color_space)
    }
}

/// A hint indicating what the encoder should prioritize.
#[derive(Debug, Clone, Copy, PartialEq, Eq, Structural)]
pub enum EncoderPreset {
    HighQuality,
    Balanced,
    LowLatency,
}

/// What the encoded content is used for.
#[derive(Debug, Clone, Copy, PartialEq, Eq, Structural)]
pub enum EncoderUsage {
    Default,
    Transcoding,
    Streaming,
    Recording,
    Conferencing,
}

/// `VkVideoEncodeUsageFlagsKHR` values.
pub const VIDEO_ENCODE_USAGE_DEFAULT: u32 = 0;
pub const VIDEO_ENCODE_USAGE_TRANSCODING: u32 = 0x1;
pub const VIDEO_ENCODE_USAGE_STREAMING: u32 = 0x2;
pub const VIDEO_ENCODE_USAGE_RECORDING: u32 = 0x4;
pub const VIDEO_ENCODE_USAGE_CONFERENCING: u32 = 0x8;

pub open spec fn spec_encoder_usage_to_vk(usage: EncoderUsage) -> u32 {
    match usage {
        EncoderUsage::Default => VIDEO_ENCODE_USAGE_DEFAULT,
        EncoderUsage::Transcoding => VIDEO_ENCODE_USAGE_TRANSCODING,
        EncoderUsage::Streaming => VIDEO_ENCODE_USAGE_STREAMING,
        EncoderUsage::Recording => VIDEO_ENCODE_USAGE_RECORDING,
        EncoderUsage::Conferencing => VIDEO_ENCODE_USAGE_CONFERENCING,
    }
}

/// Each encoder usage maps to its own Vulkan usage hint: the default usage to no bit, every
/// other usage to its own single bit (transcoding 0x1, streaming 0x2, recording 0x4,
/// conferencing 0x8); no two usages share a hint.
pub proof fn law_encoder_usage_hints_are_distinct_bits(a: EncoderUsage, b: EncoderUsage)
    ensures
        spec_encoder_usage_to_vk(a) == spec_encoder_usage_to_vk(b) ==> a == b,
        spec_encoder_usage_to_vk(EncoderUsage::Default) == 0,
        spec_encoder_usage_to_vk(EncoderUsage::Transcoding) == 0x1,
        spec_encoder_usage_to_vk(EncoderUsage::Streaming) == 0x2,
        spec_encoder_usage_to_vk(EncoderUsage::Recording) == 0x4,
        spec_encoder_usage_to_vk(EncoderUsage::Conferencing) == 0x8,
{
}

impl EncoderUsage {
    /// The Vulkan encode usage hint for this usage.
    pub fn to_vk(self) -> (r: u32)
        ensures
            r == spec_encoder_usage_to_vk(self),
            self == EncoderUsage::Default ==> r == 0,
            self == EncoderUsage::Transcoding ==> r == 0x1,
            self == EncoderUsage::Streaming ==> r == 0x2,
            self == EncoderUsage::Recording ==> r == 0x4,
            self == EncoderUsage::Conferencing ==> r == 0x8,
    {
        match self {
            EncoderUsage::Default => VIDEO_ENCODE_USAGE_DEFAULT,
            EncoderUsage::Transcoding => VIDEO_ENCODE_USAGE_TRANSCODING,
            EncoderUsage::Streaming => VIDEO_ENCODE_USAGE_STREAMING,
            EncoderUsage::Recording => VIDEO_ENCODE_USAGE_RECORDING,
            EncoderUsage::Conferencing => VIDEO_ENCODE_USAGE_CONFERENCING,
        }
    }
}

/// A span of time, as whole seconds and nanoseconds below one second.
#[derive(Debug, Clone, Copy, PartialEq, Eq, Structural)]
pub struct BufferDuration {
    pub secs: u64,
    pub nanos: u32,
}

impl BufferDuration {
    pub open spec fn wf(&self) -> bool {
        self.nanos < 1_000_000_000
    }

    /// The whole milliseconds of the span.
    pub open spec fn millis(&self) -> int {
        self.secs * 1000 + self.nanos / 1_000_000
    }

    pub fn is_zero(&self) -> (r: bool)
        ensures
            r == (self.secs == 0 && self.nanos == 0),
    {
        self.secs == 0 && self.nanos == 0
    }

    /// The whole milliseconds of the span, truncated to 32 bits as a Vulkan field holds them.
    pub fn as_millis_u32(&self) -> (r: u32)
        ensures
            r == self.millis() % 0x1_0000_0000,
    {
        let ms: u128 = (self.secs as u128) * 1000 + (self.nanos / 1_000_000) as u128;
        (ms % 0x1_0000_0000) as u32
    }
}

/// Rate control modes.
#[derive(Debug, Clone, Copy, PartialEq, Eq, Structural)]
pub enum RateControl {
    /// The encoder picks the rate control.
    EncoderDefault,
    /// Variable bitrate around an average, capped by a maximum.
    VariableBitrate { average_bitrate: u64, max_bitrate: u64, virtual_buffer_size: BufferDuration },
    /// Constant bitrate.
    ConstantBitrate { bitrate: u64, virtual_buffer_size: BufferDuration },
    /// No rate control: constant quality.
    Disabled,
}

/// `VkVideoEncodeRateControlModeFlagsKHR` values.
pub const RATE_CONTROL_MODE_DEFAULT: u32 = 0;
pub const RATE_CONTROL_MODE_DISABLED: u32 = 0x1;
pub const RATE_CONTROL_MODE_CBR: u32 = 0x2;
pub const RATE_CONTROL_MODE_VBR: u32 = 0x4;

pub open spec fn spec_rate_control_to_vk(rc: RateControl) -> u32 {
    match rc {
        RateControl::EncoderDefault => RATE_CONTROL_MODE_DEFAULT,
        RateControl::VariableBitrate { .. } => RATE_CONTROL_MODE_VBR,
        RateControl::ConstantBitrate { .. } => RATE_CONTROL_MODE_CBR,
        RateControl::Disabled => RATE_CONTROL_MODE_DISABLED,
    }
}

/// The encoder's default rate control is Vulkan's default mode (no bit); disabled, constant
/// and variable bitrate are the single bits 0x1, 0x2 and 0x4; modes of different kinds differ.
pub proof fn law_rate_control_modes_follow_vulkan(a: RateControl, b: RateControl)
    ensures
        spec_rate_control_to_vk(RateControl::EncoderDefault) == 0,
        spec_rate_control_to_vk(RateControl::Disabled) == 0x1,
        a is ConstantBitrate ==> spec_rate_control_to_vk(a) == 0x2,
        a is VariableBitrate ==> spec_rate_control_to_vk(a) == 0x4,
        spec_rate_control_to_vk(a) == spec_rate_control_to_vk(b) ==> ((a is EncoderDefault
            && b is EncoderDefault) || (a is Disabled && b is Disabled) || (a is ConstantBitrate
            && b is ConstantBitrate) || (a is VariableBitrate && b is VariableBitrate)),
{
}

impl RateControl {
    /// The Vulkan rate control mode for this rate control.
    pub fn to_vk(self) -> (r: u32)
        ensures
            r == spec_rate_control_to_vk(self),
            self is EncoderDefault ==> r == 0,
            self is Disabled ==> r == 0x1,
            self is ConstantBitrate ==> r == 0x2,
            self is VariableBitrate ==> r == 0x4,
    {
        match self {
            RateControl::EncoderDefault => RATE_CONTROL_MODE_DEFAULT,
            RateControl::VariableBitrate { .. } => RATE_CONTROL_MODE_VBR,
            RateControl::ConstantBitrate { .. } => RATE_CONTROL_MODE_CBR,
            RateControl::Disabled => RATE_CONTROL_MODE_DISABLED,
        }
    }
}

/// Parameters that describe an encoded output.
#[derive(Debug, Clone, Copy, PartialEq, Eq, Structural)]
pub struct EncoderOutputParameters<P> {
    /// Number of frames between IDRs. If [`None`], this will be set to an encoder preferred value,
    /// or, if the encoder doesn't provide a preferred value, to 30.
    pub idr_period: Option<u32>,
    /// The selected rate control mode must be supported by the device.
    pub rate_control: RateControl,
    /// Max number of references a P-frame can have. This value will be clamped to the max number the
    /// GPU supports. If [`None`], this value will be set to the max value supported by the device.
    pub max_references: Option<u32>,
    /// The profile must be supported by the device
    pub profile: P,
    /// A hint indicating what the encoder should prioritize.
    pub preset: EncoderPreset,
    /// A hint indicating what the encoded content is going to be used for.
    pub usage_flags: Option<EncoderUsage>,
    /// Whether to prepend SPS/PPS NAL units inline before IDR frames. Defaults to `true`.
    pub inline_stream_params: Option<bool>,
    /// Color space of the encoded output. Defaults to [`ColorSpace::Unspecified`].
    pub color_space: Option<ColorSpace>,
    /// Color range of the encoded output. Defaults to [`ColorRange::Limited`].
    pub color_range: Option<ColorRange>,
}

impl<P> EncoderOutputParameters<P> {
    /// A requested IDR period or reference count is never zero (the caller's API gives them
    /// as non-zero numbers).
    pub open spec fn wf(&self) -> bool {
        self.idr_period != Some(0u32) && self.max_references != Some(0u32)
    }
}

/// Parameters for H.264 encoder creation
#[derive(Debug, Clone, Copy, PartialEq, Eq, Structural)]
pub struct EncoderParametersH264 {
    pub input_parameters: VideoParameters,
    pub output_parameters: EncoderOutputParameters<H264Profile>,
}

/// Parameters for H.265 encoder creation
#[derive(Debug, Clone, Copy, PartialEq, Eq, Structural)]
pub struct EncoderParametersH265 {
    pub input_parameters: VideoParameters,
    pub output_parameters: EncoderOutputParameters<H265Profile>,
}


/// A colour space written into a stream as its colour description is read back from that
/// stream's sequence parameter set as the same colour space, whatever the range flag.
pub proof fn law_color_description_round_trip(color_space: ColorSpace, full_range: bool)
    ensures
        ({
            let d = spec_codec_color_description(color_space);
            spec_color_space_of(
                SpsColorInfo {
                    video_signal_type: Some(
                        VideoSignalType {
                            video_full_range_flag: full_range,
                            colour_description: Some(
                                ColourDescription {
                                    colour_primaries: d.colour_primaries,
                                    transfer_characteristics: d.transfer_characteristics,
                                    matrix_coefficients: d.matrix_coefficients,
                                },
                            ),
                        },
                    ),
                },
            ) == color_space
        }),
{
}

/// The range flag of a stream's video signal type is read back as the range it stands for.
pub proof fn law_color_range_round_trip(range: ColorRange)
    ensures
        spec_color_range_of(
            SpsColorInfo {
                video_signal_type: Some(
                    VideoSignalType {
                        video_full_range_flag: range == ColorRange::Full,
                        colour_description: None,
                    },
                ),
            },
        ) == range,
{
}

} // verus!
