//! The VideoToolbox backend: its handles, its error types, and the adapter description it
//! reports.
use vstd::prelude::*;

use crate::adapter::{DeviceType, VideoAdapterInfo};
use crate::capabilities::{
    supports_decoding, supports_encoding, DecodeCapabilities, EncodeCapabilities,
};
use crate::text::{owned, push_str};
use crate::vt_error::{spec_os_status_message, OSStatusError};

verus! {

/// The VideoToolbox backend.
#[derive(Debug, Clone, Copy, PartialEq, Eq, Structural)]
pub struct VTBackend;

/// A VideoToolbox instance; it has exactly one adapter.
#[derive(Debug, Clone, Copy, PartialEq, Eq, Structural)]
pub struct VTInstance {}

/// The one VideoToolbox adapter.
#[derive(Debug, Clone, Copy, PartialEq, Eq, Structural)]
pub struct VTAdapter;

impl VTBackend {
    /// A new instance; creating one cannot fail.
    pub fn new_instance(&self) -> (r: VTInstance)
        ensures
            r == (VTInstance {}),
    {
        VTInstance {}
    }
}

impl VTInstance {
    /// The adapters of the instance: always the single VideoToolbox adapter.
    pub fn iter_adapters(&self) -> (r: Vec<VTAdapter>)
        ensures
            r@ == seq![VTAdapter],
    {
        vec![VTAdapter]
    }
}

/// What describing the VideoToolbox adapter reads of the machine.
pub struct VTMachineFacts {
    /// `machdep.cpu.brand_string`, when it could be read.
    pub cpu_brand: Option<String>,
    /// Whether the library was built for Apple silicon.
    pub is_aarch64: bool,
    /// `kern.osproductversion`, when it could be read.
    pub os_product_version: Option<String>,
    pub decode_capabilities: DecodeCapabilities,
    pub encode_capabilities: EncodeCapabilities,
}

pub open spec fn or_default(s: Option<String>, default: Seq<char>) -> Seq<char> {
    match s {
        Some(v) => v@,
        None => default,
    }
}

impl VTAdapter {
    /// The description of the adapter: the CPU brand as its name (empty when unknown), an
    /// integrated GPU on Apple silicon and "other" elsewhere, the OS version as API version
    /// (`???` when unknown), zero device and vendor ids, and support for decoding or encoding
    /// where a codec has capabilities.
    pub fn build_info(&self, facts: VTMachineFacts) -> (r: VideoAdapterInfo)
        ensures
            r.name@ == or_default(facts.cpu_brand, Seq::empty()),
            r.driver_name@ == Seq::<char>::empty(),
            r.driver_info@ == Seq::<char>::empty(),
            r.device@ == "0"@,
            r.vendor@ == "0"@,
            r.device_type == (if facts.is_aarch64 {
                DeviceType::IntegratedGpu
            } else {
                DeviceType::Other
            }),
            r.api_version@ == or_default(facts.os_product_version, "???"@),
            r.supports_decoding == (facts.decode_capabilities.h264 is Some
                || facts.decode_capabilities.h265 is Some),
            r.supports_encoding == (facts.encode_capabilities.h264 is Some
                || facts.encode_capabilities.h265 is Some),
            r.decode_capabilities == facts.decode_capabilities,
            r.encode_capabilities == facts.encode_capabilities,
    {
        let name = match facts.cpu_brand {
            Some(n) => n,
            None => String::new(),
        };
        let device_type = if facts.is_aarch64 {
            DeviceType::IntegratedGpu
        } else {
            DeviceType::Other
        };
        let api_version = match facts.os_product_version {
            Some(v) => v,
            None => owned("???"),
        };
        let supports_decoding = supports_decoding(&facts.decode_capabilities);
        let supports_encoding = supports_encoding(&facts.encode_capabilities);
        VideoAdapterInfo {
            name,
            driver_name: String::new(),
            driver_info: String::new(),
            device: owned("0"),
            device_type,
            vendor: owned("0"),
            api_version,
            supports_decoding,
            supports_encoding,
            decode_capabilities: facts.decode_capabilities,
            encode_capabilities: facts.encode_capabilities,
        }
    }
}

/// Errors of the VideoToolbox decoder.
#[derive(Debug)]
pub enum VTDecoderError {
    OSStatus(OSStatusError),
    /// The bitstream parser rejected the input; holds its message.
    ParserError(String),
    /// Reference picture management failed; holds its message.
    ReferenceManagementError(String),
    NoSession,
    InvalidInputData(String),
    MetalTextureExtractionFailed,
    NoDecoderOutput,
    UnexpectedNullImage,
}

pub open spec fn spec_vt_decoder_error_message(e: VTDecoderError) -> Seq<char> {
    match e {
        VTDecoderError::OSStatus(s) => spec_os_status_message(s),
        VTDecoderError::ParserError(m) => "H264 parser error: "@ + m@,
        VTDecoderError::ReferenceManagementError(m) => "Reference management error: "@ + m@,
        VTDecoderError::NoSession => "Trying to decode with no session active (probably before receiving first SPS)"@,
        VTDecoderError::InvalidInputData(m) => "Invalid input data: "@ + m@,
        VTDecoderError::MetalTextureExtractionFailed => "Failed to extract Metal texture from CVMetalTexture"@,
        VTDecoderError::NoDecoderOutput => "VideoToolbox decoder produced no output (callback was not called)"@,
        VTDecoderError::UnexpectedNullImage => "VideoToolbox decoder returned success with no image and no FrameDropped flag"@,
    }
}

impl VTDecoderError {
    /// The error's message.
    pub fn message(&self) -> (r: String)
        ensures
            r@ == spec_vt_decoder_error_message(*self),
    {
        match self {
            VTDecoderError::OSStatus(s) => s.message(),
            VTDecoderError::ParserError(m) => push_str(owned("H264 parser error: "), m.as_str()),
            VTDecoderError::ReferenceManagementError(m) => push_str(
                owned("Reference management error: "),
                m.as_str(),
            ),
            VTDecoderError::NoSession => owned(
                "Trying to decode with no session active (probably before receiving first SPS)",
            ),
            VTDecoderError::InvalidInputData(m) => push_str(
                owned("Invalid input data: "),
                m.as_str(),
            ),
            VTDecoderError::MetalTextureExtractionFailed => owned(
                "Failed to extract Metal texture from CVMetalTexture",
            ),
            VTDecoderError::NoDecoderOutput => owned(
                "VideoToolbox decoder produced no output (callback was not called)",
            ),
            VTDecoderError::UnexpectedNullImage => owned(
                "VideoToolbox decoder returned success with no image and no FrameDropped flag",
            ),
        }
    }
}

impl From<OSStatusError> for VTDecoderError {
    fn from(e: OSStatusError) -> (r: Self) {
        VTDecoderError::OSStatus(e)
    }
}

impl vstd::std_specs::convert::FromSpecImpl<OSStatusError> for VTDecoderError {
    open spec fn obeys_from_spec() -> bool {
        true
    }

    open spec fn from_spec(e: OSStatusError) -> Self {
        VTDecoderError::OSStatus(e)
    }
}

/// Errors of setting up the VideoToolbox backend.
#[derive(Debug)]
pub enum VTInitError {
    OSStatus(OSStatusError),
    NotMetalBackend,
    /// Setting up wgpu interop failed; holds its message.
    Wgpu(String),
}

pub open spec fn spec_vt_init_error_message(e: VTInitError) -> Seq<char> {
    match e {
        VTInitError::OSStatus(s) => spec_os_status_message(s),
        VTInitError::NotMetalBackend => "wgpu device is not backed by Metal"@,
        VTInitError::Wgpu(m) => m@,
    }
}

impl VTInitError {
    /// The error's message.
    pub fn message(&self) -> (r: String)
        ensures
            r@ == spec_vt_init_error_message(*self),
    {
        match self {
            VTInitError::OSStatus(s) => s.message(),
            VTInitError::NotMetalBackend => owned("wgpu device is not backed by Metal"),
            VTInitError::Wgpu(m) => m.clone(),
        }
    }
}

/// Errors of exposing a decoded picture as Metal textures.
#[derive(Debug, Clone, Copy, PartialEq, Eq, Structural)]
pub enum MetalTextureError {
    OSStatus(OSStatusError),
    ExtractionFailed,
}

pub open spec fn spec_metal_texture_error_message(e: MetalTextureError) -> Seq<char> {
    match e {
        MetalTextureError::OSStatus(s) => spec_os_status_message(s),
        MetalTextureError::ExtractionFailed => "Failed to extract Metal texture from CVMetalTexture"@,
    }
}

impl MetalTextureError {
    /// The error's message.
    pub fn message(&self) -> (r: String)
        ensures
            r@ == spec_metal_texture_error_message(*self),
    {
        match self {
            MetalTextureError::OSStatus(s) => s.message(),
            MetalTextureError::ExtractionFailed => owned(
                "Failed to extract Metal texture from CVMetalTexture",
            ),
        }
    }
}

/// Errors of a video decoder, whatever its backend.
#[derive(Debug)]
pub enum VideoDecoderError {
    DecoderUnsupported,
    InvalidInputData(String),
    ParserError(String),
    ReferenceManagementError(String),
    VideoDeviceWithoutWgpu,
    DecodeSubmissionTimeout,
    /// A backend failed; holds the backend error's message.
    BackendError(String),
}

pub open spec fn spec_video_decoder_error_message(e: VideoDecoderError) -> Seq<char> {
    match e {
        VideoDecoderError::DecoderUnsupported => "The device does not support decoding"@,
        VideoDecoderError::InvalidInputData(m) => "Invalid input data for the decoder: "@ + m@
            + "."@,
        VideoDecoderError::ParserError(m) => "H264 parser error: "@ + m@,
        VideoDecoderError::ReferenceManagementError(m) => "Reference management error: "@ + m@,
        VideoDecoderError::VideoDeviceWithoutWgpu => "VideoDevice was created without wgpu support. Initialize wgpu::Device using VideoAdapterExt::request_device_with_video_support"@,
        VideoDecoderError::DecodeSubmissionTimeout => "Decode submission timed out"@,
        VideoDecoderError::BackendError(m) => "Decoder error: "@ + m@,
    }
}

impl VideoDecoderError {
    /// The error's message.
    pub fn message(&self) -> (r: String)
        ensures
            r@ == spec_video_decoder_error_message(*self),
    {
        match self {
            VideoDecoderError::DecoderUnsupported => owned("The device does not support decoding"),
            VideoDecoderError::InvalidInputData(m) => {
                let s = push_str(owned("Invalid input data for the decoder: "), m.as_str());
                push_str(s, ".")
            },
            VideoDecoderError::ParserError(m) => push_str(owned("H264 parser error: "), m.as_str()),
            VideoDecoderError::ReferenceManagementError(m) => push_str(
                owned("Reference management error: "),
                m.as_str(),
            ),
            VideoDecoderError::VideoDeviceWithoutWgpu => owned(
                "VideoDevice was created without wgpu support. Initialize wgpu::Device using VideoAdapterExt::request_device_with_video_support",
            ),
            VideoDecoderError::DecodeSubmissionTimeout => owned("Decode submission timed out"),
            VideoDecoderError::BackendError(m) => push_str(owned("Decoder error: "), m.as_str()),
        }
    }

    /// A VideoToolbox decoder error as a backend error carrying its message.
    pub fn from_vt_decoder_error(err: VTDecoderError) -> (r: Self)
        ensures
            r matches VideoDecoderError::BackendError(m) && m@ == spec_vt_decoder_error_message(err),
    {
        VideoDecoderError::BackendError(err.message())
    }

    /// A VideoToolbox setup error as a backend error carrying its message.
    pub fn from_vt_init_error(err: VTInitError) -> (r: Self)
        ensures
            r matches VideoDecoderError::BackendError(m) && m@ == spec_vt_init_error_message(err),
    {
        VideoDecoderError::BackendError(err.message())
    }
}

} // verus!
