use vstd::prelude::*;

use crate::annexb::{annexb_of, write_sample_as_annex_b, AnnexBError};
use crate::capabilities::{H264Profile, H265Profile};
use crate::params::{ColorRange, ColorSpace, EncoderPreset, EncoderUsage, RateControl, VideoParameters};
use crate::text::{decimal, owned, push_decimal, push_str};
use crate::vt_error::{osstatus, spec_os_status_error, OSStatusError};

verus! {

/// `kCVPixelFormatType_420YpCbCr8BiPlanarFullRange` ('420f')
pub const PIXEL_FORMAT_NV12_FULL_RANGE: u32 = 0x34323066;
/// `kCVPixelFormatType_420YpCbCr8BiPlanarVideoRange` ('420v')
pub const PIXEL_FORMAT_NV12_VIDEO_RANGE: u32 = 0x34323076;

/// Errors of the VideoToolbox encoder.
#[derive(Debug)]
pub enum VTEncoderError {
    OSStatus(OSStatusError),
    Parameters { field: &'static str, problem: String },
    InconsistentPictureByteSize { bytes: usize, size_from_resolution: usize },
    NoHardwareEncoder,
    ConstantBitrateUnsupported,
    ParametersDiverged,
    FrameDropped,
    NoEncoderOutput,
    TruncatedSample,
    NotConfiguredForWgpuInput,
    WgpuTexture(WgpuTextureProblem),
    SharedEventUnavailable,
    NoPendingFrame,
    SubmissionLost,
    SubmissionTimeout,
    MissingParameterSet(String),
    SessionInvalidated(Box<VTEncoderError>),
    NoDataBuffer,
    NoFormatDescription,
    PropertySet { property: &'static str, error: OSStatusError },
}

/// `wgpu::TextureUsages::COPY_SRC`.
pub const TEXTURE_USAGE_COPY_SRC: u32 = 1;

/// The pixel format of a wgpu texture, carried through to the error that reports it.
#[verifier::external_type_specification]
#[verifier::external_body]
pub struct ExTextureFormat(wgpu::TextureFormat);

/// What the encoder checks of an input texture.
#[derive(Debug, Clone, Copy, PartialEq, Eq)]
pub struct TextureFacts {
    /// `wgpu::TextureUsages` bits.
    pub usage: u32,
    /// The texture's format, reported when it is not NV12.
    pub format: wgpu::TextureFormat,
    /// Whether `format` is `wgpu::TextureFormat::NV12`.
    pub is_nv12: bool,
    pub width: u32,
    pub height: u32,
    pub depth_or_array_layers: u32,
}

/// A texture extent.
#[derive(Debug, Clone, Copy, PartialEq, Eq, Structural)]
pub struct Extent3d {
    pub width: u32,
    pub height: u32,
    pub depth_or_array_layers: u32,
}

/// Why an input texture cannot be encoded.
#[derive(Debug, Clone, Copy, PartialEq, Eq)]
pub enum WgpuTextureProblem {
    /// The texture has this format instead of NV12.
    NotNV12Texture(wgpu::TextureFormat),
    NoCopySrcTextureUsage(u32),
    InconsistentPictureDimensions { provided: Extent3d, expected: Extent3d },
}

/// The extent of a texture.
pub open spec fn texture_extent(t: TextureFacts) -> Extent3d {
    Extent3d { width: t.width, height: t.height, depth_or_array_layers: t.depth_or_array_layers }
}

/// What checking an input texture comes to: it has to allow copying from it, be NV12, and
/// have the expected extent, checked in this order.
pub open spec fn texture_problem(texture: TextureFacts, expected: Extent3d) -> Option<
    WgpuTextureProblem,
> {
    if texture.usage & TEXTURE_USAGE_COPY_SRC != TEXTURE_USAGE_COPY_SRC {
        Some(WgpuTextureProblem::NoCopySrcTextureUsage(texture.usage))
    } else if !texture.is_nv12 {
        Some(WgpuTextureProblem::NotNV12Texture(texture.format))
    } else if texture_extent(texture) != expected {
        Some(
            WgpuTextureProblem::InconsistentPictureDimensions {
                provided: texture_extent(texture),
                expected,
            },
        )
    } else {
        None
    }
}

/// Checks that an input texture can be copied into an encoder input of extent `expected`.
pub fn check_input_texture(texture: TextureFacts, expected: Extent3d) -> (r: Result<
    (),
    WgpuTextureProblem,
>)
    ensures
        match texture_problem(texture, expected) {
            Some(p) => r == Err::<(), WgpuTextureProblem>(p),
            None => r is Ok,
        },
{
    if texture.usage & TEXTURE_USAGE_COPY_SRC != TEXTURE_USAGE_COPY_SRC {
        return Err(WgpuTextureProblem::NoCopySrcTextureUsage(texture.usage));
    }
    if !texture.is_nv12 {
        return Err(WgpuTextureProblem::NotNV12Texture(texture.format));
    }
    let provided = Extent3d {
        width: texture.width,
        height: texture.height,
        depth_or_array_layers: texture.depth_or_array_layers,
    };
    if provided != expected {
        return Err(WgpuTextureProblem::InconsistentPictureDimensions { provided, expected });
    }
    Ok(())
}

/// Checks, in this order, that the encoder takes textures, that the stream parameters did not
/// diverge, and that the texture passes [`check_input_texture`] for the input size, one
/// layer deep.
pub fn check_texture_input(
    state: &VTEncoderState,
    wgpu_configured: bool,
    texture: TextureFacts,
    expected_width: u32,
    expected_height: u32,
) -> (r: Result<(), VTEncoderError>)
    ensures
        !wgpu_configured ==> (r matches Err(VTEncoderError::NotConfiguredForWgpuInput)),
        wgpu_configured && state.changed_spec() && !state.inline_spec() ==> (r matches Err(
            VTEncoderError::ParametersDiverged,
        )),
        wgpu_configured && !(state.changed_spec() && !state.inline_spec()) ==> match texture_problem(
            texture,
            Extent3d { width: expected_width, height: expected_height, depth_or_array_layers: 1 },
        ) {
            Some(p) => r matches Err(VTEncoderError::WgpuTexture(q)) && q == p,
            None => r is Ok,
        },
{
    if !wgpu_configured {
        return Err(VTEncoderError::NotConfiguredForWgpuInput);
    }
    if let Err(e) = state.check_can_encode() {
        return Err(e);
    }
    let expected = Extent3d {
        width: expected_width,
        height: expected_height,
        depth_or_array_layers: 1,
    };
    match check_input_texture(texture, expected) {
        Ok(()) => Ok(()),
        Err(p) => Err(VTEncoderError::WgpuTexture(p)),
    }
}

/// The timescale of the encoder's timestamps: the framerate numerator, which has to fit in
/// `1..=i32::MAX`.
pub fn time_scale_for(numerator: u32) -> (r: Result<i32, VTEncoderError>)
    ensures
        1 <= numerator <= i32::MAX ==> (r matches Ok(t) && t == numerator),
        !(1 <= numerator <= i32::MAX) ==> (r matches Err(VTEncoderError::Parameters { field, problem })
            && field@ == "input_parameters.target_framerate"@ && problem@ == "the numerator ("@
            + decimal(numerator as nat) + ") has to fit in 1..=i32::MAX"@),
{
    if numerator >= 1 && numerator <= 0x7fff_ffff {
        Ok(numerator as i32)
    } else {
        let m = owned("the numerator (");
        let m = push_decimal(m, numerator as u64);
        let m = push_str(m, ") has to fit in 1..=i32::MAX");
        Err(VTEncoderError::Parameters { field: "input_parameters.target_framerate", problem: m })
    }
}

/// A frame dimension as the 32-bit signed value VideoToolbox takes.
pub fn dimension_to_i32(value: u32, field: &'static str) -> (r: Result<i32, VTEncoderError>)
    ensures
        value <= i32::MAX ==> (r matches Ok(v) && v == value),
        value > i32::MAX ==> (r matches Err(VTEncoderError::Parameters { field: f, problem }) && f
            == field && problem@ == decimal(value as nat) + " has to fit in i32"@),
{
    if value <= 0x7fff_ffff {
        Ok(value as i32)
    } else {
        let m = push_decimal(String::new(), value as u64);
        let m = push_str(m, " has to fit in i32");
        proof {
            assert(Seq::<char>::empty() + decimal(value as nat) =~= decimal(value as nat));
        }
        Err(VTEncoderError::Parameters { field, problem: m })
    }
}

/// 4:2:0 chroma subsampling needs even frame dimensions.
pub fn require_even_for_420_subsampling(value: i32, field: &'static str) -> (r: Result<(), VTEncoderError>)
    requires
        value >= 0,
    ensures
        value % 2 == 0 ==> r is Ok,
        value % 2 != 0 ==> (r matches Err(VTEncoderError::Parameters { field: f, problem }) && f
            == field && problem@ == decimal(value as nat)
            + " has to be even for 4:2:0 chroma subsampling"@),
{
    if value % 2 != 0 {
        let m = push_decimal(String::new(), value as u64);
        let m = push_str(m, " has to be even for 4:2:0 chroma subsampling");
        proof {
            assert(Seq::<char>::empty() + decimal(value as nat) =~= decimal(value as nat));
        }
        return Err(VTEncoderError::Parameters { field, problem: m });
    }
    Ok(())
}

/// The geometry of a compression session.
#[derive(Debug, Clone, Copy, PartialEq, Eq, Structural)]
pub struct SessionGeometry {
    pub width: i32,
    pub height: i32,
    /// CoreVideo pixel format of the input buffers.
    pub pixel_format: u32,
}

/// The input pixel format for a color range: full or video range NV12.
/// Full-range video decodes into `420f` and limited-range video into `420v`, the two NV12
/// CoreVideo formats.
pub proof fn law_pixel_format_follows_range(range: ColorRange)
    ensures
        range == ColorRange::Full ==> spec_pixel_format(range) == 0x34323066,
        range == ColorRange::Limited ==> spec_pixel_format(range) == 0x34323076,
        spec_pixel_format(ColorRange::Full) != spec_pixel_format(ColorRange::Limited),
{
}

pub open spec fn spec_pixel_format(range: ColorRange) -> u32 {
    match range {
        ColorRange::Full => PIXEL_FORMAT_NV12_FULL_RANGE,
        ColorRange::Limited => PIXEL_FORMAT_NV12_VIDEO_RANGE,
    }
}

/// What is wrong with a frame size for a compression session, checked in this order: the width
/// fits in `i32`, the height does, the width is even, the height is; the field at fault and the
/// problem.
pub open spec fn geometry_problem(width: u32, height: u32) -> Option<(Seq<char>, Seq<char>)> {
    if width > i32::MAX {
        Some(("input_parameters.width"@, decimal(width as nat) + " has to fit in i32"@))
    } else if height > i32::MAX {
        Some(("input_parameters.height"@, decimal(height as nat) + " has to fit in i32"@))
    } else if width % 2 != 0 {
        Some(
            (
                "input_parameters.width"@,
                decimal(width as nat) + " has to be even for 4:2:0 chroma subsampling"@,
            ),
        )
    } else if height % 2 != 0 {
        Some(
            (
                "input_parameters.height"@,
                decimal(height as nat) + " has to be even for 4:2:0 chroma subsampling"@,
            ),
        )
    } else {
        None
    }
}

/// Checks the frame size for a compression session (see [`geometry_problem`]) and picks the
/// input pixel format from the color range, limited by default.
pub fn session_geometry(input: VideoParameters, color_range: Option<ColorRange>) -> (r: Result<
    SessionGeometry,
    VTEncoderError,
>)
    ensures
        match geometry_problem(input.width, input.height) {
            Some((f, m)) => r matches Err(VTEncoderError::Parameters { field, problem }) && field@
                == f && problem@ == m,
            None => r matches Ok(g) && g.width == input.width && g.height == input.height
                && g.pixel_format == spec_pixel_format(
                match color_range {
                    Some(c) => c,
                    None => ColorRange::Limited,
                },
            ),
        },
{
    let width = match dimension_to_i32(input.width, "input_parameters.width") {
        Ok(w) => w,
        Err(e) => {
            return Err(e);
        },
    };
    let height = match dimension_to_i32(input.height, "input_parameters.height") {
        Ok(h) => h,
        Err(e) => {
            return Err(e);
        },
    };
    match require_even_for_420_subsampling(width, "input_parameters.width") {
        Ok(()) => {},
        Err(e) => {
            return Err(e);
        },
    }
    match require_even_for_420_subsampling(height, "input_parameters.height") {
        Ok(()) => {},
        Err(e) => {
            return Err(e);
        },
    }
    let range = match color_range {
        Some(c) => c,
        None => ColorRange::Limited,
    };
    let pixel_format = match range {
        ColorRange::Full => PIXEL_FORMAT_NV12_FULL_RANGE,
        ColorRange::Limited => PIXEL_FORMAT_NV12_VIDEO_RANGE,
    };
    Ok(SessionGeometry { width, height, pixel_format })
}

/// Whether the session should run in real time: not for transcoding; yes for streaming,
/// conferencing and recording (a live source that falls behind loses data); for the default
/// usage, only with the low latency preset; otherwise left to the encoder.
pub open spec fn spec_realtime_hint(preset: EncoderPreset, usage: Option<EncoderUsage>) -> Option<bool> {
    match usage {
        Some(EncoderUsage::Transcoding) => Some(false),
        Some(EncoderUsage::Streaming) | Some(EncoderUsage::Conferencing) | Some(
            EncoderUsage::Recording,
        ) => Some(true),
        _ => if preset == EncoderPreset::LowLatency {
            Some(true)
        } else {
            None
        },
    }
}

/// Whether an encoding session runs in real time: never for transcoding; always for a live
/// source (streaming, conferencing, recording); with the default or no usage, real time is asked
/// for only with the low latency preset and otherwise left to the encoder.
pub proof fn law_realtime_hint_by_usage(preset: EncoderPreset, usage: Option<EncoderUsage>)
    ensures
        usage == Some(EncoderUsage::Transcoding) ==> spec_realtime_hint(preset, usage) == Some(false),
        (usage == Some(EncoderUsage::Streaming) || usage == Some(EncoderUsage::Conferencing) || usage
            == Some(EncoderUsage::Recording)) ==> spec_realtime_hint(preset, usage) == Some(true),
        (usage == Some(EncoderUsage::Default) || usage is None) ==> spec_realtime_hint(preset, usage)
            == (if preset == EncoderPreset::LowLatency {
            Some(true)
        } else {
            None
        }),
        spec_realtime_hint(preset, usage) == Some(false) <==> usage == Some(EncoderUsage::Transcoding),
{
}

pub fn realtime_hint(preset: EncoderPreset, usage: Option<EncoderUsage>) -> (r: Option<bool>)
    ensures
        r == spec_realtime_hint(preset, usage),
        usage == Some(EncoderUsage::Transcoding) ==> r == Some(false),
        (usage == Some(EncoderUsage::Streaming) || usage == Some(EncoderUsage::Conferencing) || usage
            == Some(EncoderUsage::Recording)) ==> r == Some(true),
        (usage == Some(EncoderUsage::Default) || usage is None) ==> r == (if preset
            == EncoderPreset::LowLatency {
            Some(true)
        } else {
            None
        }),
{
    match usage {
        Some(EncoderUsage::Transcoding) => Some(false),
        Some(EncoderUsage::Streaming) | Some(EncoderUsage::Conferencing) | Some(
            EncoderUsage::Recording,
        ) => Some(true),
        _ => match preset {
            EncoderPreset::LowLatency => Some(true),
            _ => None,
        },
    }
}

/// Presets set rate-control keys of their own that clash with explicit rate control, so a
/// session only tries its preset base configuration with the encoder's default rate control.
pub fn uses_preset_base(rate_control: RateControl) -> (r: bool)
    ensures
        r == (rate_control is EncoderDefault),
{
    match rate_control {
        RateControl::EncoderDefault => true,
        _ => false,
    }
}

/// The rate control properties a compression session gets.
#[derive(Debug, Clone, Copy, PartialEq, Eq, Structural)]
pub enum RateControlSetup {
    /// Nothing to set.
    EncoderDefault,
    /// An average bitrate, refined by a data rate limit of `max_bitrate` over the buffer window.
    AverageBitrate { average_bitrate: u64, max_bitrate: u64, window_secs: u64, window_nanos: u32 },
    /// A constant bitrate.
    ConstantBitrate { bitrate: u64 },
    /// A constant quality for the preset, when the encoder has a quality property.
    Quality,
    /// The encoder has no quality property; rate control stays at its default.
    QualityUnsupported,
}

/// Decides the rate control properties: variable bitrate needs a non-zero buffer window;
/// constant bitrate needs an encoder that has the constant bitrate property (`cbr_supported`);
/// disabled rate control sets a quality when the encoder has that property.
pub fn rate_control_setup(rate_control: RateControl, cbr_supported: bool, quality_supported: bool) -> (r: Result<RateControlSetup, VTEncoderError>)
    ensures
        match rate_control {
            RateControl::EncoderDefault => r matches Ok(RateControlSetup::EncoderDefault),
            RateControl::VariableBitrate { average_bitrate, max_bitrate, virtual_buffer_size } => if virtual_buffer_size.secs == 0
                && virtual_buffer_size.nanos == 0 {
                r matches Err(VTEncoderError::Parameters { field, problem }) && field@
                    == "rate_control.virtual_buffer_size"@ && problem@
                    == "must be non-zero for variable bitrate rate control"@
            } else {
                r matches Ok(RateControlSetup::AverageBitrate { average_bitrate: a, max_bitrate: m, window_secs: s, window_nanos: n })
                    && a == average_bitrate && m == max_bitrate && s == virtual_buffer_size.secs && n == virtual_buffer_size.nanos
            },
            RateControl::ConstantBitrate { bitrate, .. } => if cbr_supported {
                r matches Ok(RateControlSetup::ConstantBitrate { bitrate: b }) && b == bitrate
            } else {
                r matches Err(VTEncoderError::ConstantBitrateUnsupported)
            },
            RateControl::Disabled => if quality_supported {
                r matches Ok(RateControlSetup::Quality)
            } else {
                r matches Ok(RateControlSetup::QualityUnsupported)
            },
        },
{
    match rate_control {
        RateControl::EncoderDefault => Ok(RateControlSetup::EncoderDefault),
        RateControl::VariableBitrate { average_bitrate, max_bitrate, virtual_buffer_size } => {
            if virtual_buffer_size.is_zero() {
                return Err(
                    VTEncoderError::Parameters {
                        field: "rate_control.virtual_buffer_size",
                        problem: owned("must be non-zero for variable bitrate rate control"),
                    },
                );
            }
            Ok(
                RateControlSetup::AverageBitrate {
                    average_bitrate,
                    max_bitrate,
                    window_secs: virtual_buffer_size.secs,
                    window_nanos: virtual_buffer_size.nanos,
                },
            )
        },
        RateControl::ConstantBitrate { bitrate, .. } => {
            if !cbr_supported {
                return Err(VTEncoderError::ConstantBitrateUnsupported);
            }
            Ok(RateControlSetup::ConstantBitrate { bitrate })
        },
        RateControl::Disabled => {
            if quality_supported {
                Ok(RateControlSetup::Quality)
            } else {
                Ok(RateControlSetup::QualityUnsupported)
            }
        },
    }
}

/// Whether an encoded sample is a keyframe, from the not-sync attachment of its first
/// attachment dictionary: `None` when the sample has no attachments, `Some(None)` when the
/// dictionary lacks the key. A sample is a keyframe unless it is marked not-sync.
pub fn is_keyframe(not_sync: Option<Option<bool>>) -> (r: bool)
    ensures
        r == !(not_sync == Some(Some(true))),
{
    match not_sync {
        Some(Some(v)) => !v,
        _ => true,
    }
}

/// Checks what the encoder's output handler reported: the status, then the frame-dropped flag,
/// then that a sample came.
pub fn check_output_status(status: i32, frame_dropped: bool, has_sample: bool) -> (r: Result<(), VTEncoderError>)
    ensures
        status != 0 ==> (r matches Err(VTEncoderError::OSStatus(e)) && e == spec_os_status_error(status)),
        status == 0 && frame_dropped ==> r matches Err(VTEncoderError::FrameDropped),
        status == 0 && !frame_dropped && !has_sample ==> r matches Err(VTEncoderError::NoEncoderOutput),
        status == 0 && !frame_dropped && has_sample ==> r is Ok,
{
    match osstatus(status) {
        Ok(()) => {},
        Err(e) => {
            return Err(VTEncoderError::OSStatus(e));
        },
    }
    if frame_dropped {
        return Err(VTEncoderError::FrameDropped);
    }
    if !has_sample {
        return Err(VTEncoderError::NoEncoderOutput);
    }
    Ok(())
}

/// Whether two byte strings are equal.
pub fn bytes_equal(a: &Vec<u8>, b: &Vec<u8>) -> (r: bool)
    ensures
        r == (a@ == b@),
{
    if a.len() != b.len() {
        return false;
    }
    let mut i: usize = 0;
    while i < a.len()
        invariant
            i <= a@.len(),
            a@.len() == b@.len(),
            forall|j: int| 0 <= j < i ==> a@[j] == b@[j],
        decreases a.len() - i,
    {
        if a[i] != b[i] {
            return false;
        }
        i = i + 1;
    }
    assert(a@ =~= b@);
    true
}

/// Timing and stream bookkeeping of a VideoToolbox encoder.
pub struct VTEncoderState {
    frame_index: i64,
    pts_step: i64,
    time_scale: i32,
    session_generation: u64,
    picture_byte_size: usize,
    inline_stream_params: bool,
    parameters_changed_mid_stream: bool,
}

impl VTEncoderState {
    pub closed spec fn frame_index_spec(&self) -> i64 {
        self.frame_index
    }

    pub closed spec fn pts_step_spec(&self) -> i64 {
        self.pts_step
    }

    pub closed spec fn time_scale_spec(&self) -> i32 {
        self.time_scale
    }

    pub closed spec fn session_generation_spec(&self) -> u64 {
        self.session_generation
    }

    pub closed spec fn picture_byte_size_spec(&self) -> usize {
        self.picture_byte_size
    }

    pub closed spec fn inline_spec(&self) -> bool {
        self.inline_stream_params
    }

    pub closed spec fn changed_spec(&self) -> bool {
        self.parameters_changed_mid_stream
    }

    /// A new encoder: the timescale is the framerate numerator, a frame lasts the denominator,
    /// an NV12 picture takes one and a half bytes per pixel, and stream parameters go inline
    /// unless disabled.
    pub fn new(input: VideoParameters, inline_stream_params: Option<bool>) -> (r: Result<Self, VTEncoderError>)
        requires
            input.width * input.height * 3 / 2 <= usize::MAX,
        ensures
            match r {
                Ok(s) => {
                    &&& 1 <= input.target_framerate.numerator <= i32::MAX
                    &&& s.time_scale_spec() == input.target_framerate.numerator
                    &&& s.pts_step_spec() == input.target_framerate.denominator
                    &&& s.frame_index_spec() == 0
                    &&& s.session_generation_spec() == 0
                    &&& s.picture_byte_size_spec() == input.width * input.height * 3 / 2
                    &&& s.inline_spec() == match inline_stream_params {
                        Some(b) => b,
                        None => true,
                    }
                    &&& !s.changed_spec()
                },
                Err(e) => {
                    &&& !(1 <= input.target_framerate.numerator <= i32::MAX)
                    &&& e matches VTEncoderError::Parameters { field, problem }
                    &&& field@ == "input_parameters.target_framerate"@
                    &&& problem@ == "the numerator ("@ + decimal(
                        input.target_framerate.numerator as nat,
                    ) + ") has to fit in 1..=i32::MAX"@
                },
            },
    {
        let time_scale = match time_scale_for(input.target_framerate.numerator) {
            Ok(t) => t,
            Err(e) => {
                return Err(e);
            },
        };
        let w = input.width as u64;
        let h = input.height as u64;
        assert(w * h <= 0xffff_fffe_0000_0001u64) by (nonlinear_arith)
            requires
                w <= u32::MAX,
                h <= u32::MAX,
        ;
        let pixels: u128 = (w as u128) * (h as u128);
        let size: u128 = pixels * 3 / 2;
        Ok(
            VTEncoderState {
                frame_index: 0,
                pts_step: input.target_framerate.denominator as i64,
                time_scale,
                session_generation: 0,
                picture_byte_size: size as usize,
                inline_stream_params: match inline_stream_params {
                    Some(b) => b,
                    None => true,
                },
                parameters_changed_mid_stream: false,
            },
        )
    }

    /// The timestamp of the next frame (frame index times frame duration, in the timescale)
    /// and its duration; the frame index advances.
    pub fn next_frame_timing(&mut self) -> (r: (i64, i64, i32))
        requires
            0 <= old(self).frame_index_spec() < i64::MAX,
            0 <= old(self).pts_step_spec(),
            (old(self).frame_index_spec() as int) * (old(self).pts_step_spec() as int) <= i64::MAX,
        ensures
            r.0 == old(self).frame_index_spec() * old(self).pts_step_spec(),
            r.1 == old(self).pts_step_spec(),
            r.2 == old(self).time_scale_spec(),
            final(self).frame_index_spec() == old(self).frame_index_spec() + 1,
            final(self).pts_step_spec() == old(self).pts_step_spec(),
            final(self).time_scale_spec() == old(self).time_scale_spec(),
            final(self).session_generation_spec() == old(self).session_generation_spec(),
            final(self).inline_spec() == old(self).inline_spec(),
            final(self).changed_spec() == old(self).changed_spec(),
            final(self).picture_byte_size_spec() == old(self).picture_byte_size_spec(),
    {
        let pts = self.frame_index * self.pts_step;
        self.frame_index = self.frame_index + 1;
        (pts, self.pts_step, self.time_scale)
    }

    /// Encoding stops for good once the stream parameters changed mid-stream while they are
    /// delivered out of band.
    pub fn check_can_encode(&self) -> (r: Result<(), VTEncoderError>)
        ensures
            (self.changed_spec() && !self.inline_spec()) ==> r matches Err(VTEncoderError::ParametersDiverged),
            !(self.changed_spec() && !self.inline_spec()) ==> r is Ok,
    {
        if self.parameters_changed_mid_stream && !self.inline_stream_params {
            return Err(VTEncoderError::ParametersDiverged);
        }
        Ok(())
    }

    /// A raw input frame must hold exactly one NV12 picture.
    pub fn check_frame_size(&self, bytes: usize) -> (r: Result<(), VTEncoderError>)
        ensures
            bytes == self.picture_byte_size_spec() ==> r is Ok,
            bytes != self.picture_byte_size_spec() ==> (r matches Err(VTEncoderError::InconsistentPictureByteSize { bytes: b, size_from_resolution: s })
                && b == bytes && s == self.picture_byte_size_spec()),
    {
        if bytes != self.picture_byte_size {
            return Err(
                VTEncoderError::InconsistentPictureByteSize {
                    bytes,
                    size_from_resolution: self.picture_byte_size,
                },
            );
        }
        Ok(())
    }

    pub fn session_generation(&self) -> (r: u64)
        ensures
            r == self.session_generation_spec(),
    {
        self.session_generation
    }

    /// After a submission made under session generation `generation` found the session
    /// invalidated: the session is rebuilt only when no one rebuilt it since.
    pub fn needs_rebuild(&self, generation: u64) -> (r: bool)
        ensures
            r == (generation == self.session_generation_spec()),
    {
        generation == self.session_generation
    }

    /// Records a rebuilt session.
    pub fn mark_rebuilt(&mut self)
        requires
            old(self).session_generation_spec() < u64::MAX,
        ensures
            final(self).session_generation_spec() == old(self).session_generation_spec() + 1,
            final(self).frame_index_spec() == old(self).frame_index_spec(),
            final(self).pts_step_spec() == old(self).pts_step_spec(),
            final(self).time_scale_spec() == old(self).time_scale_spec(),
            final(self).inline_spec() == old(self).inline_spec(),
            final(self).changed_spec() == old(self).changed_spec(),
            final(self).picture_byte_size_spec() == old(self).picture_byte_size_spec(),
    {
        self.session_generation = self.session_generation + 1;
    }

    /// Records stream parameters that replaced `previous`. When they differ the stream changed
    /// mid-stream, which is an error when parameters are delivered out of band.
    pub fn note_stream_parameters(&mut self, previous: &Vec<u8>, current: &Vec<u8>) -> (r: Result<(), VTEncoderError>)
        ensures
            final(self).changed_spec() == (old(self).changed_spec() || previous@ != current@),
            (previous@ != current@ && !old(self).inline_spec()) ==> r matches Err(VTEncoderError::ParametersDiverged),
            !(previous@ != current@ && !old(self).inline_spec()) ==> r is Ok,
            final(self).session_generation_spec() == old(self).session_generation_spec(),
            final(self).frame_index_spec() == old(self).frame_index_spec(),
            final(self).pts_step_spec() == old(self).pts_step_spec(),
            final(self).time_scale_spec() == old(self).time_scale_spec(),
            final(self).inline_spec() == old(self).inline_spec(),
            final(self).picture_byte_size_spec() == old(self).picture_byte_size_spec(),
    {
        if !bytes_equal(previous, current) {
            self.parameters_changed_mid_stream = true;
            if !self.inline_stream_params {
                return Err(VTEncoderError::ParametersDiverged);
            }
        }
        Ok(())
    }

    /// Assembles an encoded chunk: the stream parameters (`prefix`) before a keyframe when they
    /// go inline, then the sample converted to Annex B.
    pub fn assemble_chunk(&self, is_keyframe: bool, prefix: &Vec<u8>, sample: &[u8], nal_length_size: usize) -> (r: Result<Vec<u8>, VTEncoderError>)
        requires
            1 <= nal_length_size <= 4,
        ensures
            match annexb_of(sample@, nal_length_size as nat) {
                Some(converted) => r matches Ok(data) && data@ == (if is_keyframe && self.inline_spec() {
                    prefix@
                } else {
                    Seq::<u8>::empty()
                }) + converted,
                None => r matches Err(VTEncoderError::TruncatedSample),
            },
    {
        let mut data: Vec<u8> = Vec::new();
        if is_keyframe && self.inline_stream_params {
            let mut i: usize = 0;
            while i < prefix.len()
                invariant
                    i <= prefix@.len(),
                    data@ == prefix@.take(i as int),
                decreases prefix.len() - i,
            {
                data.push(prefix[i]);
                assert(prefix@.take(i + 1) =~= prefix@.take(i as int).push(prefix@[i as int]));
                i = i + 1;
            }
            assert(prefix@.take(prefix@.len() as int) =~= prefix@);
        }
        match write_sample_as_annex_b(sample, nal_length_size, &mut data) {
            Ok(()) => Ok(data),
            Err(AnnexBError::TruncatedSample) => Err(VTEncoderError::TruncatedSample),
        }
    }
}


/// The profile-level constants a compression session is configured with (all with the level
/// picked automatically).
#[derive(Debug, Clone, Copy, PartialEq, Eq, Structural)]
pub enum ProfileLevel {
    H264BaselineAutoLevel,
    H264MainAutoLevel,
    H264HighAutoLevel,
    HevcMainAutoLevel,
}

/// The profile level of an H.264 profile.
pub fn h264_profile_level(profile: H264Profile) -> (r: ProfileLevel)
    ensures
        r == match profile {
            H264Profile::Baseline => ProfileLevel::H264BaselineAutoLevel,
            H264Profile::Main => ProfileLevel::H264MainAutoLevel,
            H264Profile::High => ProfileLevel::H264HighAutoLevel,
        },
{
    match profile {
        H264Profile::Baseline => ProfileLevel::H264BaselineAutoLevel,
        H264Profile::Main => ProfileLevel::H264MainAutoLevel,
        H264Profile::High => ProfileLevel::H264HighAutoLevel,
    }
}

/// The profile level of an H.265 profile.
pub fn h265_profile_level(profile: H265Profile) -> (r: ProfileLevel)
    ensures
        r == ProfileLevel::HevcMainAutoLevel,
{
    match profile {
        H265Profile::Main => ProfileLevel::HevcMainAutoLevel,
    }
}

/// CoreVideo colour primaries tags.
#[derive(Debug, Clone, Copy, PartialEq, Eq, Structural)]
pub enum ColorPrimariesTag {
    ItuR709,
    SmpteC,
    Ebu3213,
}

/// CoreVideo Y'CbCr matrix tags.
#[derive(Debug, Clone, Copy, PartialEq, Eq, Structural)]
pub enum YCbCrMatrixTag {
    ItuR709,
    ItuR601,
}

/// CoreVideo transfer function tags.
#[derive(Debug, Clone, Copy, PartialEq, Eq, Structural)]
pub enum TransferFunctionTag {
    ItuR709,
}

/// The colour tags of a compression session.
#[derive(Debug, Clone, Copy, PartialEq, Eq, Structural)]
pub struct ColorTags {
    pub primaries: ColorPrimariesTag,
    pub transfer: TransferFunctionTag,
    pub matrix: YCbCrMatrixTag,
}

/// The colour tags of a colour space: none for an unspecified one; ITU-R BT.709 primaries,
/// transfer function and matrix for BT.709; SMPTE C primaries for BT.601 NTSC and EBU 3213
/// primaries for BT.601 PAL, both with the BT.709 transfer function and the BT.601 matrix.
pub open spec fn spec_color_tags(color_space: ColorSpace) -> Option<ColorTags> {
    match color_space {
        ColorSpace::Unspecified => None,
        ColorSpace::BT709 => Some(
            ColorTags {
                primaries: ColorPrimariesTag::ItuR709,
                transfer: TransferFunctionTag::ItuR709,
                matrix: YCbCrMatrixTag::ItuR709,
            },
        ),
        ColorSpace::BT601Ntsc => Some(
            ColorTags {
                primaries: ColorPrimariesTag::SmpteC,
                transfer: TransferFunctionTag::ItuR709,
                matrix: YCbCrMatrixTag::ItuR601,
            },
        ),
        ColorSpace::BT601Pal => Some(
            ColorTags {
                primaries: ColorPrimariesTag::Ebu3213,
                transfer: TransferFunctionTag::ItuR709,
                matrix: YCbCrMatrixTag::ItuR601,
            },
        ),
    }
}

/// The colour tags of each colour space: BT.709 primaries and matrix for BT.709; SMPTE C
/// primaries for BT.601 NTSC and EBU 3213 primaries for BT.601 PAL, both with the BT.601
/// matrix; the BT.709 transfer function for every specified space; no tags for an unspecified
/// one. Different specified colour spaces get different tags.
pub proof fn law_color_tags_per_space(a: ColorSpace, b: ColorSpace)
    ensures
        spec_color_tags(ColorSpace::Unspecified) is None,
        spec_color_tags(ColorSpace::BT709) == Some(
            ColorTags {
                primaries: ColorPrimariesTag::ItuR709,
                transfer: TransferFunctionTag::ItuR709,
                matrix: YCbCrMatrixTag::ItuR709,
            },
        ),
        spec_color_tags(ColorSpace::BT601Ntsc) == Some(
            ColorTags {
                primaries: ColorPrimariesTag::SmpteC,
                transfer: TransferFunctionTag::ItuR709,
                matrix: YCbCrMatrixTag::ItuR601,
            },
        ),
        spec_color_tags(ColorSpace::BT601Pal) == Some(
            ColorTags {
                primaries: ColorPrimariesTag::Ebu3213,
                transfer: TransferFunctionTag::ItuR709,
                matrix: YCbCrMatrixTag::ItuR601,
            },
        ),
        spec_color_tags(a) == spec_color_tags(b) ==> a == b,
{
}

/// The colour tags for a colour space; an unspecified one sets none, and every specified one
/// uses the BT.709 transfer function.
pub fn color_tags(color_space: ColorSpace) -> (r: Option<ColorTags>)
    ensures
        r == spec_color_tags(color_space),
        r is None <==> color_space == ColorSpace::Unspecified,
        r matches Some(t) ==> t.transfer == TransferFunctionTag::ItuR709,
{
    match color_space {
        ColorSpace::Unspecified => None,
        ColorSpace::BT709 => Some(
            ColorTags {
                primaries: ColorPrimariesTag::ItuR709,
                transfer: TransferFunctionTag::ItuR709,
                matrix: YCbCrMatrixTag::ItuR709,
            },
        ),
        ColorSpace::BT601Ntsc => Some(
            ColorTags {
                primaries: ColorPrimariesTag::SmpteC,
                transfer: TransferFunctionTag::ItuR709,
                matrix: YCbCrMatrixTag::ItuR601,
            },
        ),
        ColorSpace::BT601Pal => Some(
            ColorTags {
                primaries: ColorPrimariesTag::Ebu3213,
                transfer: TransferFunctionTag::ItuR709,
                matrix: YCbCrMatrixTag::ItuR601,
            },
        ),
    }
}

/// One colour property of a compression session with the tag it is set to.
#[derive(Debug, Clone, Copy, PartialEq, Eq, Structural)]
pub enum ColorProperty {
    /// `kVTCompressionPropertyKey_ColorPrimaries`
    ColorPrimaries(ColorPrimariesTag),
    /// `kVTCompressionPropertyKey_TransferFunction`
    TransferFunction(TransferFunctionTag),
    /// `kVTCompressionPropertyKey_YCbCrMatrix`
    YCbCrMatrix(YCbCrMatrixTag),
}

/// The colour properties set on a session, in order: none for an unspecified colour space,
/// else the primaries, the transfer function and the matrix of its tags.
pub open spec fn spec_color_properties(color_space: ColorSpace) -> Seq<ColorProperty> {
    match spec_color_tags(color_space) {
        None => Seq::empty(),
        Some(t) => seq![
            ColorProperty::ColorPrimaries(t.primaries),
            ColorProperty::TransferFunction(t.transfer),
            ColorProperty::YCbCrMatrix(t.matrix),
        ],
    }
}

/// The colour properties to set on a compression session, in the order they are set; see
/// [`spec_color_properties`].
pub fn color_properties(color_space: ColorSpace) -> (r: Vec<ColorProperty>)
    ensures
        r@ == spec_color_properties(color_space),
        color_space == ColorSpace::Unspecified ==> r@.len() == 0,
        color_space != ColorSpace::Unspecified ==> r@.len() == 3,
{
    match color_tags(color_space) {
        None => Vec::new(),
        Some(t) => {
            let mut v: Vec<ColorProperty> = Vec::new();
            v.push(ColorProperty::ColorPrimaries(t.primaries));
            v.push(ColorProperty::TransferFunction(t.transfer));
            v.push(ColorProperty::YCbCrMatrix(t.matrix));
            assert(v@ =~= spec_color_properties(color_space));
            v
        },
    }
}

/// The compression preset of an encoder preset: its name and the symbol of its key, looked up
/// at run time because older systems lack presets.
pub fn compression_preset(preset: EncoderPreset) -> (r: (&'static str, &'static str))
    ensures
        preset == EncoderPreset::HighQuality ==> r.0@ == "HighQuality"@ && r.1@
            == "kVTCompressionPreset_HighQuality"@,
        preset == EncoderPreset::Balanced ==> r.0@ == "Balanced"@ && r.1@
            == "kVTCompressionPreset_Balanced"@,
        preset == EncoderPreset::LowLatency ==> r.0@ == "HighSpeed"@ && r.1@
            == "kVTCompressionPreset_HighSpeed"@,
{
    match preset {
        EncoderPreset::HighQuality => ("HighQuality", "kVTCompressionPreset_HighQuality"),
        EncoderPreset::Balanced => ("Balanced", "kVTCompressionPreset_Balanced"),
        EncoderPreset::LowLatency => ("HighSpeed", "kVTCompressionPreset_HighSpeed"),
    }
}

/// The properties a compression session is configured with, in the order they are set.
pub struct SessionPropertyPlan {
    /// Whether the preset's base configuration is applied first.
    pub apply_preset_base: bool,
    pub profile_level: ProfileLevel,
    /// Frame reordering is always disabled, so that encoding blocks per frame.
    pub allow_frame_reordering: bool,
    pub real_time: Option<bool>,
    pub max_key_frame_interval: Option<i64>,
    /// The rate control, or why it cannot be set; it is set after the properties above.
    pub rate_control: Result<RateControlSetup, VTEncoderError>,
    pub color: Option<ColorTags>,
}

/// Plans the configuration of a compression session from the encoder's output parameters and
/// what the encoder supports.
pub fn plan_session_properties(
    preset: EncoderPreset,
    usage: Option<EncoderUsage>,
    idr_period: Option<u32>,
    rate_control: RateControl,
    color_space: Option<ColorSpace>,
    profile_level: ProfileLevel,
    cbr_supported: bool,
    quality_supported: bool,
) -> (r: SessionPropertyPlan)
    ensures
        r.apply_preset_base == (rate_control is EncoderDefault),
        r.profile_level == profile_level,
        !r.allow_frame_reordering,
        r.real_time == spec_realtime_hint(preset, usage),
        usage == Some(EncoderUsage::Transcoding) ==> r.real_time == Some(false),
        (usage == Some(EncoderUsage::Streaming) || usage == Some(EncoderUsage::Conferencing) || usage
            == Some(EncoderUsage::Recording)) ==> r.real_time == Some(true),
        (usage == Some(EncoderUsage::Default) || usage is None) ==> r.real_time == (if preset
            == EncoderPreset::LowLatency {
            Some(true)
        } else {
            None
        }),
        r.max_key_frame_interval == match idr_period {
            Some(p) => Some(p as i64),
            None => None::<i64>,
        },
        r.color == spec_color_tags(
            match color_space {
                Some(c) => c,
                None => ColorSpace::Unspecified,
            },
        ),
        match rate_control {
            RateControl::ConstantBitrate { bitrate, .. } => if cbr_supported {
                r.rate_control matches Ok(RateControlSetup::ConstantBitrate { bitrate: b }) && b
                    == bitrate
            } else {
                r.rate_control matches Err(VTEncoderError::ConstantBitrateUnsupported)
            },
            RateControl::EncoderDefault => r.rate_control matches Ok(RateControlSetup::EncoderDefault),
            RateControl::Disabled => r.rate_control matches Ok(s) && s == if quality_supported {
                RateControlSetup::Quality
            } else {
                RateControlSetup::QualityUnsupported
            },
            RateControl::VariableBitrate { average_bitrate, max_bitrate, virtual_buffer_size } => if virtual_buffer_size.secs == 0
                && virtual_buffer_size.nanos == 0 {
                r.rate_control matches Err(VTEncoderError::Parameters { .. })
            } else {
                r.rate_control matches Ok(RateControlSetup::AverageBitrate { average_bitrate: a, max_bitrate: m, window_secs: s, window_nanos: n })
                    && a == average_bitrate && m == max_bitrate && s == virtual_buffer_size.secs
                    && n == virtual_buffer_size.nanos
            },
        },
{
    let color = match color_space {
        Some(c) => color_tags(c),
        None => None,
    };
    SessionPropertyPlan {
        apply_preset_base: uses_preset_base(rate_control),
        profile_level,
        allow_frame_reordering: false,
        real_time: realtime_hint(preset, usage),
        max_key_frame_interval: match idr_period {
            Some(p) => Some(p as i64),
            None => None,
        },
        rate_control: rate_control_setup(rate_control, cbr_supported, quality_supported),
        color,
    }
}


/// Whether a failed encode found its compression session invalidated, which the encoder
/// recovers from by rebuilding the session (once per generation) and retrying the frame.
pub fn is_invalidated_session(err: &VTEncoderError) -> (r: bool)
    ensures
        r == (*err matches VTEncoderError::OSStatus(s) && s == OSStatusError::VTInvalidSession),
{
    match err {
        VTEncoderError::OSStatus(OSStatusError::VTInvalidSession) => true,
        _ => false,
    }
}

} // verus!
