use vstd::prelude::*;

use crate::capabilities::{H264Profile, H265Profile};
use crate::params::{
    ColorRange, ColorSpace, EncoderOutputParameters, EncoderPreset, EncoderUsage, RateControl,
    Rational, spec_rate_control_to_vk, VIDEO_ENCODE_USAGE_DEFAULT, RATE_CONTROL_MODE_CBR,
    RATE_CONTROL_MODE_DISABLED, RATE_CONTROL_MODE_VBR,
};
use crate::vt_encoder::WgpuTextureProblem;
use crate::text::{decimal, owned, push_decimal, push_str, signed_decimal};

verus! {

/// `VkVideoEncodeTuningModeKHR` values.
pub const TUNING_MODE_DEFAULT: i32 = 0;
pub const TUNING_MODE_HIGH_QUALITY: i32 = 1;
pub const TUNING_MODE_LOW_LATENCY: i32 = 2;
/// `VK_VIDEO_ENCODE_CONTENT_DEFAULT_KHR`
pub const ENCODE_CONTENT_DEFAULT: u32 = 0;
/// IDR period used when neither the caller nor the device names one.
pub const DEFAULT_IDR_PERIOD: u32 = 30;

/// The binary digits of `n`, most significant first, without leading zeros.
pub open spec fn binary_digits(n: nat) -> Seq<char>
    decreases n,
{
    if n < 2 {
        seq![if n == 0 { '0' } else { '1' }]
    } else {
        binary_digits(n / 2).push(if n % 2 == 0 { '0' } else { '1' })
    }
}

/// The parts of the debug rendering of rate control mode flags: the names of the set mode bits
/// in the order the bindings list them (`DISABLED`, `CBR`, `VBR`; `DEFAULT` is no bit), then
/// any other set bits as one binary number.
pub open spec fn rate_control_mode_parts(flags: u32) -> Seq<Seq<char>> {
    let a = if flags & RATE_CONTROL_MODE_DISABLED != 0 {
        seq!["DISABLED"@]
    } else {
        Seq::<Seq<char>>::empty()
    };
    let b = if flags & RATE_CONTROL_MODE_CBR != 0 {
        a.push("CBR"@)
    } else {
        a
    };
    let c = if flags & RATE_CONTROL_MODE_VBR != 0 {
        b.push("VBR"@)
    } else {
        b
    };
    let rest = flags & 0xffff_fff8u32;
    if rest != 0 {
        c.push(binary_digits(rest as nat))
    } else {
        c
    }
}

/// `parts` joined with ` | ` between them.
pub open spec fn joined_with_bars(parts: Seq<Seq<char>>) -> Seq<char>
    decreases parts.len(),
{
    if parts.len() == 0 {
        Seq::empty()
    } else if parts.len() == 1 {
        parts[0]
    } else {
        joined_with_bars(parts.drop_last()) + " | "@ + parts.last()
    }
}

/// The debug rendering of a `VkVideoEncodeRateControlModeFlagsKHR` value, as the Vulkan bindings
/// print it: the set parts joined by ` | `, empty text for no bit.
pub open spec fn vk_rate_control_modes_debug(flags: u32) -> Seq<char> {
    joined_with_bars(rate_control_mode_parts(flags))
}

/// Renders rate control mode flags with the `Debug` implementation of
/// `ash::vk::VideoEncodeRateControlModeFlagsKHR`, which names the known set bits in order,
/// joined by ` | `, and writes any other set bits in binary.
#[verifier::external_body]
fn rate_control_modes_debug(flags: u32) -> (r: String)
    ensures
        r@ == vk_rate_control_modes_debug(flags),
{
    format!("{:?}", ash::vk::VideoEncodeRateControlModeFlagsKHR::from_raw(flags))
}

/// The text the Vulkan bindings print for a `VkResult` (its `Display`).
pub uninterp spec fn vk_result_text(code: i32) -> Seq<char>;

/// Renders a `VkResult` with the `Display` implementation of `ash::vk::Result`; the text is
/// named, not stated.
#[verifier::external_body]
fn vk_result_message(code: i32) -> (r: String)
    ensures
        r@ == vk_result_text(code),
{
    format!("{}", ash::vk::Result::from_raw(code))
}

/// The debug rendering of a `VkQueryResultStatusKHR` value, as the Vulkan bindings print it:
/// the name of a known status, the signed decimal value of any other.
pub open spec fn vk_query_status_debug(status: i32) -> Seq<char> {
    if status == -1 {
        "ERROR"@
    } else if status == 0 {
        "NOT_READY"@
    } else if status == 1 {
        "COMPLETE"@
    } else if status == -1_000_299_000 {
        "INSUFFICIENTSTREAM_BUFFER_RANGE"@
    } else {
        signed_decimal(status as int)
    }
}

/// Renders a query result status with the `Debug` implementation of
/// `ash::vk::QueryResultStatusKHR`, which writes the name of the four statuses it knows and the
/// decimal value of any other.
#[verifier::external_body]
fn query_status_debug(status: i32) -> (r: String)
    ensures
        r@ == vk_query_status_debug(status),
{
    format!("{:?}", ash::vk::QueryResultStatusKHR::from_raw(status))
}

/// One encode quality level as the device describes it.
#[derive(Debug, Clone, Copy, PartialEq, Eq, Structural)]
pub struct QualityLevelProperties {
    /// The IDR period the device prefers at this level; `0` when it has no preference.
    pub preferred_idr_period: u32,
}

/// What parameter validation reads of a device's encode capabilities for one profile.
pub struct EncodeProfileLimits {
    pub quality_levels: Vec<QualityLevelProperties>,
    pub min_coded_width: u32,
    pub min_coded_height: u32,
    pub max_coded_width: u32,
    pub max_coded_height: u32,
    /// Supported `VkVideoEncodeRateControlModeFlagsKHR`.
    pub rate_control_modes: u32,
    /// Most references a P picture may use.
    pub max_references: u32,
}

/// Errors of Vulkan encoder setup that parameter validation produces.
#[derive(Debug)]
pub enum VulkanEncoderError {
    VulkanEncoderUnsupported,
    ProfileUnsupported(String),
    ParametersError { field: &'static str, problem: String },
    InconsistentPictureByteSize { bytes: usize, size_from_resolution: usize },
    WrongFrameDimensions { provided: (u32, u32), expected: (u32, u32) },
    /// A Vulkan call failed with this `VkResult`.
    VkError(i32),
    NoMemory,
    /// A Vulkan object could not be made or used; holds the message.
    VulkanCommonError(String),
    UnsupportedDeviceCapabilities(&'static str),
    /// The encode query reported this `VkQueryResultStatusKHR` instead of completion.
    EncodeOperationFailed(i32),
    WgpuTextureEncoderError(WgpuTextureProblem),
}

/// `VK_QUERY_RESULT_STATUS_COMPLETE_KHR`.
pub const QUERY_RESULT_STATUS_COMPLETE: i32 = 1;

/// The bytes of an NV12 picture of `width` x `height`: one and a half per pixel.
pub open spec fn nv12_picture_size(width: u32, height: u32) -> int {
    width * height * 3 / 2
}

/// Checks a raw NV12 frame against the encoder's input extent: first its dimensions, then its
/// byte length.
pub fn check_raw_frame(
    frame_width: u32,
    frame_height: u32,
    frame_len: usize,
    extent_width: u32,
    extent_height: u32,
) -> (r: Result<(), VulkanEncoderError>)
    requires
        frame_width * frame_height * 3 <= usize::MAX,
    ensures
        (frame_width != extent_width || frame_height != extent_height) ==> (r matches Err(
            VulkanEncoderError::WrongFrameDimensions { provided, expected },
        ) && provided == (frame_width, frame_height) && expected == (extent_width, extent_height)),
        (frame_width == extent_width && frame_height == extent_height && frame_len
            != nv12_picture_size(frame_width, frame_height)) ==> (r matches Err(
            VulkanEncoderError::InconsistentPictureByteSize { bytes, size_from_resolution },
        ) && bytes == frame_len && size_from_resolution == nv12_picture_size(
            frame_width,
            frame_height,
        )),
        (frame_width == extent_width && frame_height == extent_height && frame_len
            == nv12_picture_size(frame_width, frame_height)) ==> r is Ok,
{
    if frame_width != extent_width || frame_height != extent_height {
        return Err(
            VulkanEncoderError::WrongFrameDimensions {
                provided: (frame_width, frame_height),
                expected: (extent_width, extent_height),
            },
        );
    }
    let w = frame_width as usize;
    let h = frame_height as usize;
    assert(w * h * 3 <= usize::MAX);
    assert(w * h <= w * h * 3) by (nonlinear_arith);
    let size = w * h * 3 / 2;
    if size != frame_len {
        return Err(
            VulkanEncoderError::InconsistentPictureByteSize { bytes: frame_len, size_from_resolution: size },
        );
    }
    Ok(())
}

/// An encoded picture.
pub struct EncodedOutputChunk {
    pub data: Vec<u8>,
    pub pts: Option<u64>,
    pub is_keyframe: bool,
}

/// The stream parameters put before an encoded picture: all parameter sets of the session
/// before an IDR picture when stream parameters go inline, nothing otherwise.
pub fn prepended_stream_params(is_idr: bool, inline_stream_params: bool, all_parameter_sets: Vec<u8>) -> (r: Vec<u8>)
    ensures
        r@ == if is_idr && inline_stream_params {
            all_parameter_sets@
        } else {
            Seq::<u8>::empty()
        },
{
    if is_idr && inline_stream_params {
        all_parameter_sets
    } else {
        Vec::new()
    }
}

/// The chunk of a finished encode: unless the query reports completion the encode failed;
/// otherwise the stream parameters put before it, then the bytes the encoder wrote.
pub fn finish_encode_download(
    status: i32,
    prepended_stream_params: Vec<u8>,
    encoded: &[u8],
    pts: Option<u64>,
    is_idr: bool,
) -> (r: Result<EncodedOutputChunk, VulkanEncoderError>)
    ensures
        status != QUERY_RESULT_STATUS_COMPLETE ==> (r matches Err(
            VulkanEncoderError::EncodeOperationFailed(s),
        ) && s == status),
        status == QUERY_RESULT_STATUS_COMPLETE ==> (r matches Ok(c) && c.data@
            == prepended_stream_params@ + encoded@ && c.pts == pts && c.is_keyframe == is_idr),
{
    if status != QUERY_RESULT_STATUS_COMPLETE {
        return Err(VulkanEncoderError::EncodeOperationFailed(status));
    }
    let mut output = prepended_stream_params;
    let mut i: usize = 0;
    while i < encoded.len()
        invariant
            i <= encoded@.len(),
            output@ == prepended_stream_params@ + encoded@.subrange(0, i as int),
        decreases encoded.len() - i,
    {
        output.push(encoded[i]);
        proof {
            assert(encoded@.subrange(0, i + 1) =~= encoded@.subrange(0, i as int).push(encoded@[i as int]));
        }
        i = i + 1;
    }
    assert(encoded@.subrange(0, encoded@.len() as int) =~= encoded@);
    Ok(EncodedOutputChunk { data: output, pts, is_keyframe: is_idr })
}

/// Encoder parameters with every default resolved and every limit checked.
#[derive(Debug, Clone, Copy, PartialEq, Eq, Structural)]
pub struct FullEncoderParameters<P> {
    pub idr_period: u32,
    pub width: u32,
    pub height: u32,
    pub rate_control: RateControl,
    pub max_references: u32,
    pub profile: P,
    pub quality_level: u32,
    pub framerate: Rational,
    pub usage_flags: u32,
    pub tuning_mode: i32,
    pub content_flags: u32,
    pub inline_stream_params: bool,
    pub color_space: ColorSpace,
    pub color_range: ColorRange,
}

/// The quality level and tuning mode a preset selects among `levels` quality levels: the
/// highest level for high quality, the middle one for balanced, the lowest for low latency.
pub open spec fn spec_quality_and_tuning(preset: EncoderPreset, levels: nat) -> (u32, i32) {
    match preset {
        EncoderPreset::HighQuality => (
            (if levels == 0 {
                0
            } else {
                levels - 1
            }) as u32,
            TUNING_MODE_HIGH_QUALITY,
        ),
        EncoderPreset::Balanced => ((levels / 2) as u32, TUNING_MODE_DEFAULT),
        EncoderPreset::LowLatency => (0, TUNING_MODE_LOW_LATENCY),
    }
}

/// Among `levels` quality levels the high quality preset takes the highest, the low latency
/// preset the lowest and the balanced preset the middle one, each a level the device has
/// (when it has any); high quality tunes for quality, low latency for latency, balanced neither.
pub proof fn law_presets_pick_quality_levels(preset: EncoderPreset, levels: nat)
    requires
        levels <= u32::MAX,
    ensures
        levels > 0 ==> spec_quality_and_tuning(preset, levels).0 < levels,
        levels > 0 ==> spec_quality_and_tuning(EncoderPreset::HighQuality, levels).0 == levels - 1,
        spec_quality_and_tuning(EncoderPreset::LowLatency, levels).0 == 0,
        spec_quality_and_tuning(EncoderPreset::LowLatency, levels).0 <= spec_quality_and_tuning(
            EncoderPreset::Balanced,
            levels,
        ).0 <= spec_quality_and_tuning(EncoderPreset::HighQuality, levels).0,
        2 * spec_quality_and_tuning(EncoderPreset::Balanced, levels).0 <= levels < 2
            * spec_quality_and_tuning(EncoderPreset::Balanced, levels).0 + 2,
        spec_quality_and_tuning(EncoderPreset::HighQuality, levels).1 == 1,
        spec_quality_and_tuning(EncoderPreset::Balanced, levels).1 == 0,
        spec_quality_and_tuning(EncoderPreset::LowLatency, levels).1 == 2,
{
}

/// A requested IDR period is kept as it is; without one, the device's preferred period is
/// used, and 30 when the device prefers none. A requested period that is not zero, or no
/// request, never gives zero.
pub proof fn law_idr_period_resolution(preferred: u32, requested: Option<u32>)
    ensures
        match requested {
            Some(p) => spec_resolve_idr_period(preferred, requested) == p,
            None => true,
        },
        (requested is None && preferred != 0) ==> spec_resolve_idr_period(preferred, requested)
            == preferred,
        (requested is None && preferred == 0) ==> spec_resolve_idr_period(preferred, requested)
            == 30,
        requested != Some(0u32) ==> spec_resolve_idr_period(preferred, requested) > 0,
{
}

/// The reference count is at least one and never more than the device supports (or one, when
/// the device reports none); a request within the device's limit is kept, a larger one is cut
/// to the limit, and no request takes the limit.
pub proof fn law_reference_count_resolution(device_max: u32, requested: Option<u32>)
    ensures
        spec_resolve_max_references(device_max, requested) >= 1,
        device_max > 0 ==> spec_resolve_max_references(device_max, requested) <= device_max,
        device_max == 0 ==> spec_resolve_max_references(device_max, requested) == 1,
        match requested {
            Some(r) => (0 < r <= device_max ==> spec_resolve_max_references(device_max, requested)
                == r) && (r > device_max && device_max > 0 ==> spec_resolve_max_references(
                device_max,
                requested,
            ) == device_max),
            None => true,
        },
        (requested is None && device_max > 0) ==> spec_resolve_max_references(device_max, requested)
            == device_max,
{
}

pub fn quality_and_tuning(preset: EncoderPreset, levels: usize) -> (r: (u32, i32))
    requires
        levels <= u32::MAX,
    ensures
        r == spec_quality_and_tuning(preset, levels as nat),
{
    match preset {
        EncoderPreset::HighQuality => (
            if levels == 0 {
                0
            } else {
                (levels - 1) as u32
            },
            TUNING_MODE_HIGH_QUALITY,
        ),
        EncoderPreset::Balanced => ((levels as u32) / 2, TUNING_MODE_DEFAULT),
        EncoderPreset::LowLatency => (0, TUNING_MODE_LOW_LATENCY),
    }
}

/// The IDR period: the requested one, else the device's preferred one, else 30.
pub open spec fn spec_resolve_idr_period(preferred: u32, requested: Option<u32>) -> u32 {
    match requested {
        Some(p) => p,
        None => if preferred != 0 {
            preferred
        } else {
            DEFAULT_IDR_PERIOD
        },
    }
}

pub fn resolve_idr_period(preferred: u32, requested: Option<u32>) -> (r: u32)
    ensures
        r == spec_resolve_idr_period(preferred, requested),
{
    match requested {
        Some(p) => p,
        None => if preferred != 0 {
            preferred
        } else {
            DEFAULT_IDR_PERIOD
        },
    }
}

/// The number of references: the requested one clamped to what the device supports, or the
/// device's maximum when none is requested; at least one.
pub open spec fn spec_resolve_max_references(device_max: u32, requested: Option<u32>) -> u32 {
    let v = match requested {
        Some(r) => if r < device_max {
            r
        } else {
            device_max
        },
        None => device_max,
    };
    if v == 0 {
        1
    } else {
        v
    }
}

pub fn resolve_max_references(device_max: u32, requested: Option<u32>) -> (r: u32)
    ensures
        r == spec_resolve_max_references(device_max, requested),
        r >= 1,
{
    let v = match requested {
        Some(r) => if r < device_max {
            r
        } else {
            device_max
        },
        None => device_max,
    };
    if v == 0 {
        1
    } else {
        v
    }
}

/// The message for a dimension outside the device's coded extent.
pub open spec fn extent_problem(label: Seq<char>, value: u32, min: u32, max: u32) -> Seq<char> {
    label + " is "@ + decimal(value as nat) + ", should be between "@ + decimal(min as nat)
        + " and "@ + decimal(max as nat) + "."@
}

fn extent_message(is_width: bool, value: u32, min: u32, max: u32) -> (r: String)
    ensures
        r@ == extent_problem(
            if is_width {
                "Width"@
            } else {
                "Height"@
            },
            value,
            min,
            max,
        ),
{
    let m = if is_width {
        owned("Width")
    } else {
        owned("Height")
    };
    let m = push_str(m, " is ");
    let m = push_decimal(m, value as u64);
    let m = push_str(m, ", should be between ");
    let m = push_decimal(m, min as u64);
    let m = push_str(m, " and ");
    let m = push_decimal(m, max as u64);
    push_str(m, ".")
}

/// The message for rate control the device does not support.
pub open spec fn rate_control_problem(mode: u32, supported: u32) -> Seq<char> {
    "Rate control has mode "@ + vk_rate_control_modes_debug(mode) + ". Supported modes are: "@
        + vk_rate_control_modes_debug(supported) + "."@
}

/// The message for a framerate with a zero numerator.
pub open spec fn zero_framerate_problem(framerate: Rational) -> Seq<char> {
    "Framerate is Rational { numerator: "@ + decimal(framerate.numerator as nat)
        + ", denominator: "@ + decimal(framerate.denominator as nat)
        + " }. The numerator should be != 0."@
}

/// What checking `parameters` against `limits` comes to: the full parameters, or the field
/// at fault and the problem with it. `levels` is the view of `limits.quality_levels`.
pub open spec fn validation_outcome<P>(
    levels: Seq<QualityLevelProperties>,
    limits: EncodeProfileLimits,
    parameters: EncoderOutputParameters<P>,
    width: u32,
    height: u32,
    framerate: Rational,
) -> Result<FullEncoderParameters<P>, (Seq<char>, Seq<char>)> {
    let (quality_level, tuning_mode) = spec_quality_and_tuning(parameters.preset, levels.len());
    let mode = spec_rate_control_to_vk(parameters.rate_control);
    if width < limits.min_coded_width || width > limits.max_coded_width {
        Err(
            (
                "width"@,
                extent_problem("Width"@, width, limits.min_coded_width, limits.max_coded_width),
            ),
        )
    } else if height < limits.min_coded_height || height > limits.max_coded_height {
        Err(
            (
                "height"@,
                extent_problem(
                    "Height"@,
                    height,
                    limits.min_coded_height,
                    limits.max_coded_height,
                ),
            ),
        )
    } else if limits.rate_control_modes & mode != mode {
        Err(("rate_control"@, rate_control_problem(mode, limits.rate_control_modes)))
    } else if framerate.numerator * 2 > u32::MAX {
        Err(("framerate"@, "Framerate numerator * 2 must fit in u32"@))
    } else if framerate.numerator == 0 {
        Err(("framerate"@, zero_framerate_problem(framerate)))
    } else {
        Ok(
            FullEncoderParameters {
                idr_period: spec_resolve_idr_period(
                    levels[quality_level as int].preferred_idr_period,
                    parameters.idr_period,
                ),
                width,
                height,
                rate_control: parameters.rate_control,
                max_references: spec_resolve_max_references(
                    limits.max_references,
                    parameters.max_references,
                ),
                profile: parameters.profile,
                quality_level,
                framerate,
                usage_flags: match parameters.usage_flags {
                    Some(u) => crate::params::spec_encoder_usage_to_vk(u),
                    None => VIDEO_ENCODE_USAGE_DEFAULT,
                },
                tuning_mode,
                content_flags: ENCODE_CONTENT_DEFAULT,
                inline_stream_params: match parameters.inline_stream_params {
                    Some(b) => b,
                    None => true,
                },
                color_space: match parameters.color_space {
                    Some(c) => c,
                    None => ColorSpace::Unspecified,
                },
                color_range: match parameters.color_range {
                    Some(c) => c,
                    None => ColorRange::Limited,
                },
            },
        )
    }
}

/// `r` is the outcome `o`: the same full parameters, or a parameters error naming the same
/// field and problem.
pub open spec fn outcome_is<P>(
    r: Result<FullEncoderParameters<P>, VulkanEncoderError>,
    o: Result<FullEncoderParameters<P>, (Seq<char>, Seq<char>)>,
) -> bool {
    match o {
        Ok(full) => r == Ok::<FullEncoderParameters<P>, VulkanEncoderError>(full),
        Err((f, m)) => r matches Err(VulkanEncoderError::ParametersError { field, problem })
            && field@ == f && problem@ == m,
    }
}

/// Checks encoder output parameters against a device's limits for the chosen profile and fills
/// in every default: the quality level and tuning mode follow the preset, the IDR period and the
/// reference count resolve as [`spec_resolve_idr_period`] and [`spec_resolve_max_references`]
/// say, the usage defaults to the default hint, stream parameters go inline unless disabled,
/// the color space defaults to unspecified and the range to limited. The checks run in this
/// order: width, height, rate control mode, framerate numerator doubling, zero numerator.
pub fn validate_and_fill_encoder_parameters<P: Copy>(
    limits: &EncodeProfileLimits,
    parameters: EncoderOutputParameters<P>,
    width: u32,
    height: u32,
    framerate: Rational,
) -> (r: Result<FullEncoderParameters<P>, VulkanEncoderError>)
    requires
        limits.quality_levels@.len() > 0,
        limits.quality_levels@.len() <= u32::MAX,
        parameters.wf(),
    ensures
        outcome_is(
            r,
            validation_outcome(limits.quality_levels@, *limits, parameters, width, height, framerate),
        ),
        r matches Ok(full) ==> full.idr_period > 0 && full.max_references > 0,
{
    let (quality_level, tuning_mode) = quality_and_tuning(
        parameters.preset,
        limits.quality_levels.len(),
    );
    let level = limits.quality_levels[quality_level as usize];
    let idr_period = resolve_idr_period(level.preferred_idr_period, parameters.idr_period);
    if width < limits.min_coded_width || width > limits.max_coded_width {
        return Err(
            VulkanEncoderError::ParametersError {
                field: "width",
                problem: extent_message(true, width, limits.min_coded_width, limits.max_coded_width),
            },
        );
    }
    if height < limits.min_coded_height || height > limits.max_coded_height {
        return Err(
            VulkanEncoderError::ParametersError {
                field: "height",
                problem: extent_message(
                    false,
                    height,
                    limits.min_coded_height,
                    limits.max_coded_height,
                ),
            },
        );
    }
    let mode = parameters.rate_control.to_vk();
    if limits.rate_control_modes & mode != mode {
        let m = owned("Rate control has mode ");
        let m = m.concat(rate_control_modes_debug(mode).as_str());
        let m = push_str(m, ". Supported modes are: ");
        let m = m.concat(rate_control_modes_debug(limits.rate_control_modes).as_str());
        let m = push_str(m, ".");
        return Err(VulkanEncoderError::ParametersError { field: "rate_control", problem: m });
    }
    let max_references = resolve_max_references(limits.max_references, parameters.max_references);
    if framerate.numerator.checked_mul(2).is_none() {
        return Err(
            VulkanEncoderError::ParametersError {
                field: "framerate",
                problem: owned("Framerate numerator * 2 must fit in u32"),
            },
        );
    }
    if framerate.numerator == 0 {
        let m = owned("Framerate is Rational { numerator: ");
        let m = push_decimal(m, framerate.numerator as u64);
        let m = push_str(m, ", denominator: ");
        let m = push_decimal(m, framerate.denominator as u64);
        let m = push_str(m, " }. The numerator should be != 0.");
        return Err(VulkanEncoderError::ParametersError { field: "framerate", problem: m });
    }
    let usage_flags = match parameters.usage_flags {
        Some(u) => u.to_vk(),
        None => VIDEO_ENCODE_USAGE_DEFAULT,
    };
    let inline_stream_params = match parameters.inline_stream_params {
        Some(b) => b,
        None => true,
    };
    let color_space = match parameters.color_space {
        Some(c) => c,
        None => ColorSpace::Unspecified,
    };
    let color_range = match parameters.color_range {
        Some(c) => c,
        None => ColorRange::Limited,
    };
    Ok(
        FullEncoderParameters {
            idr_period,
            width,
            height,
            rate_control: parameters.rate_control,
            max_references,
            profile: parameters.profile,
            quality_level,
            framerate,
            usage_flags,
            tuning_mode,
            content_flags: ENCODE_CONTENT_DEFAULT,
            inline_stream_params,
            color_space,
            color_range,
        },
    )
}


/// One rate-control layer: the framerate and the bitrates it aims for.
#[derive(Debug, Clone, Copy, PartialEq, Eq, Structural)]
pub struct RateControlLayer {
    pub frame_rate_numerator: u32,
    pub frame_rate_denominator: u32,
    pub average_bitrate: u64,
    pub max_bitrate: u64,
}

/// The rate control an encode session is set to.
#[derive(Debug, Clone, Copy, PartialEq, Eq, Structural)]
pub struct RateControlInfo {
    /// `VkVideoEncodeRateControlModeFlagsKHR`.
    pub mode: u32,
    pub virtual_buffer_size_in_ms: u32,
    pub initial_virtual_buffer_size_in_ms: u32,
    pub layer_count: u32,
}

/// The layer each codec layer gets: variable bitrate aims at its average and caps at its
/// maximum, constant bitrate aims at and caps at its bitrate, and without rate control no
/// bitrate is set.
pub open spec fn spec_rate_control_layer(rc: RateControl, framerate: Rational) -> RateControlLayer {
    let (average, max) = match rc {
        RateControl::VariableBitrate { average_bitrate, max_bitrate, .. } => (
            average_bitrate,
            max_bitrate,
        ),
        RateControl::ConstantBitrate { bitrate, .. } => (bitrate, bitrate),
        _ => (0u64, 0u64),
    };
    RateControlLayer {
        frame_rate_numerator: framerate.numerator,
        frame_rate_denominator: framerate.denominator,
        average_bitrate: average,
        max_bitrate: max,
    }
}

/// The session rate control over `layer_count` layers: the mode, the virtual buffer of
/// bitrate-driven modes in whole milliseconds (truncated to 32 bits) with an empty initial
/// buffer, and no layers at all when rate control is disabled.
pub open spec fn spec_rate_control_info(rc: RateControl, layer_count: u32) -> RateControlInfo {
    match rc {
        RateControl::VariableBitrate { virtual_buffer_size, .. } => RateControlInfo {
            mode: RATE_CONTROL_MODE_VBR,
            virtual_buffer_size_in_ms: (virtual_buffer_size.millis() % 0x1_0000_0000) as u32,
            initial_virtual_buffer_size_in_ms: 0,
            layer_count,
        },
        RateControl::ConstantBitrate { virtual_buffer_size, .. } => RateControlInfo {
            mode: RATE_CONTROL_MODE_CBR,
            virtual_buffer_size_in_ms: (virtual_buffer_size.millis() % 0x1_0000_0000) as u32,
            initial_virtual_buffer_size_in_ms: 0,
            layer_count,
        },
        _ => RateControlInfo {
            mode: RATE_CONTROL_MODE_DISABLED,
            virtual_buffer_size_in_ms: 0,
            initial_virtual_buffer_size_in_ms: 0,
            layer_count: 0,
        },
    }
}

/// How rate control is set up for an encode: nothing when the encoder picks it or the codec
/// offers no layers; otherwise one layer per codec layer and the session's rate control.
pub fn rate_control_plan(rc: RateControl, framerate: Rational, codec_layers: Option<u32>) -> (r:
    Option<(RateControlInfo, Vec<RateControlLayer>)>)
    ensures
        (rc == RateControl::EncoderDefault || codec_layers is None || codec_layers == Some(0u32))
            ==> r is None,
        !(rc == RateControl::EncoderDefault || codec_layers is None || codec_layers == Some(0u32))
            ==> (r matches Some((info, layers)) && info == spec_rate_control_info(
            rc,
            codec_layers.unwrap(),
        ) && layers@.len() == codec_layers.unwrap() && forall|i: int|
            0 <= i < layers@.len() ==> #[trigger] layers@[i] == spec_rate_control_layer(
                rc,
                framerate,
            )),
{
    let count = match codec_layers {
        None => {
            return None;
        },
        Some(c) => c,
    };
    if let RateControl::EncoderDefault = rc {
        return None;
    }
    if count == 0 {
        return None;
    }
    let (average, max) = match rc {
        RateControl::VariableBitrate { average_bitrate, max_bitrate, .. } => (
            average_bitrate,
            max_bitrate,
        ),
        RateControl::ConstantBitrate { bitrate, .. } => (bitrate, bitrate),
        _ => (0u64, 0u64),
    };
    let layer = RateControlLayer {
        frame_rate_numerator: framerate.numerator,
        frame_rate_denominator: framerate.denominator,
        average_bitrate: average,
        max_bitrate: max,
    };
    let mut layers: Vec<RateControlLayer> = Vec::new();
    let mut i: u32 = 0;
    while i < count
        invariant
            i <= count,
            layers@.len() == i,
            layer == spec_rate_control_layer(rc, framerate),
            forall|j: int| 0 <= j < i ==> #[trigger] layers@[j] == layer,
        decreases count - i,
    {
        layers.push(layer);
        i = i + 1;
    }
    let info = match rc {
        RateControl::VariableBitrate { virtual_buffer_size, .. } => RateControlInfo {
            mode: RATE_CONTROL_MODE_VBR,
            virtual_buffer_size_in_ms: virtual_buffer_size.as_millis_u32(),
            initial_virtual_buffer_size_in_ms: 0,
            layer_count: count,
        },
        RateControl::ConstantBitrate { virtual_buffer_size, .. } => RateControlInfo {
            mode: RATE_CONTROL_MODE_CBR,
            virtual_buffer_size_in_ms: virtual_buffer_size.as_millis_u32(),
            initial_virtual_buffer_size_in_ms: 0,
            layer_count: count,
        },
        _ => RateControlInfo {
            mode: RATE_CONTROL_MODE_DISABLED,
            virtual_buffer_size_in_ms: 0,
            initial_virtual_buffer_size_in_ms: 0,
            layer_count: 0,
        },
    };
    Some((info, layers))
}


/// Errors of an encoder, whatever its backend.
#[derive(Debug)]
pub enum VideoEncoderError {
    EncoderUnsupported,
    ProfileUnsupported(String),
    VideoDeviceWithoutWgpu,
    ParametersError { field: &'static str, problem: String },
    InconsistentPictureByteSize { bytes: usize, size_from_resolution: usize },
    InconsistentPictureDimensions { provided: (u32, u32), expected: (u32, u32) },
    WgpuTextureEncoderError(WgpuTextureProblem),
    /// A backend failed; holds the backend error's message.
    BackendError(String),
}

/// The message of a Vulkan encoder error that only the backend knows how to handle.
pub open spec fn backend_error_message(err: VulkanEncoderError) -> Seq<char> {
    match err {
        VulkanEncoderError::VkError(code) => "Vulkan error: "@ + vk_result_text(code),
        VulkanEncoderError::NoMemory => "Cannot find enough memory of the right type on the device"@,
        VulkanEncoderError::VulkanCommonError(m) => m@,
        VulkanEncoderError::UnsupportedDeviceCapabilities(c) => "This device does not support the required capabilities: "@ + c@,
        VulkanEncoderError::EncodeOperationFailed(s) => "Encode operation failed with status "@ + vk_query_status_debug(s),
        _ => Seq::empty(),
    }
}

impl VideoEncoderError {
    /// A Vulkan encoder error as the encoder error users see: the errors users can act on keep
    /// their kind (wrong frame dimensions become inconsistent picture dimensions); Vulkan
    /// failures, memory, common and capability errors and failed encodes become backend errors
    /// carrying their message.
    pub fn from_vulkan_encoder_error(err: VulkanEncoderError) -> (r: Self)
        ensures
            match err {
                VulkanEncoderError::VulkanEncoderUnsupported => r matches VideoEncoderError::EncoderUnsupported,
                VulkanEncoderError::ProfileUnsupported(p) => r matches VideoEncoderError::ProfileUnsupported(q) && q == p,
                VulkanEncoderError::ParametersError { field, problem } => r matches VideoEncoderError::ParametersError { field: f, problem: m } && f == field && m == problem,
                VulkanEncoderError::InconsistentPictureByteSize { bytes, size_from_resolution } => r matches VideoEncoderError::InconsistentPictureByteSize { bytes: b, size_from_resolution: s } && b == bytes && s == size_from_resolution,
                VulkanEncoderError::WrongFrameDimensions { provided, expected } => r matches VideoEncoderError::InconsistentPictureDimensions { provided: p, expected: e } && p == provided && e == expected,
                VulkanEncoderError::WgpuTextureEncoderError(t) => r matches VideoEncoderError::WgpuTextureEncoderError(u) && u == t,
                _ => r matches VideoEncoderError::BackendError(m) && m@ == backend_error_message(err),
            },
    {
        match err {
            VulkanEncoderError::VulkanEncoderUnsupported => VideoEncoderError::EncoderUnsupported,
            VulkanEncoderError::ProfileUnsupported(p) => VideoEncoderError::ProfileUnsupported(p),
            VulkanEncoderError::ParametersError { field, problem } => VideoEncoderError::ParametersError { field, problem },
            VulkanEncoderError::InconsistentPictureByteSize { bytes, size_from_resolution } => VideoEncoderError::InconsistentPictureByteSize { bytes, size_from_resolution },
            VulkanEncoderError::WrongFrameDimensions { provided, expected } => VideoEncoderError::InconsistentPictureDimensions { provided, expected },
            VulkanEncoderError::WgpuTextureEncoderError(t) => VideoEncoderError::WgpuTextureEncoderError(t),
            VulkanEncoderError::VkError(code) => VideoEncoderError::BackendError(
                push_str(owned("Vulkan error: "), vk_result_message(code).as_str()),
            ),
            VulkanEncoderError::NoMemory => VideoEncoderError::BackendError(
                owned("Cannot find enough memory of the right type on the device"),
            ),
            VulkanEncoderError::VulkanCommonError(m) => VideoEncoderError::BackendError(m),
            VulkanEncoderError::UnsupportedDeviceCapabilities(c) => VideoEncoderError::BackendError(
                push_str(owned("This device does not support the required capabilities: "), c),
            ),
            VulkanEncoderError::EncodeOperationFailed(s) => VideoEncoderError::BackendError(
                push_str(owned("Encode operation failed with status "), query_status_debug(s).as_str()),
            ),
        }
    }
}

} // verus!
