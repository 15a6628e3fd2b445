use vstd::prelude::*;

verus! {

/// H.264 profiles an encoder can be asked for.
#[derive(Debug, Clone, Copy, PartialEq, Eq, Structural)]
pub enum H264Profile {
    Baseline,
    Main,
    High,
}

/// H.265 profiles an encoder can be asked for.
#[derive(Debug, Clone, Copy, PartialEq, Eq, Structural)]
pub enum H265Profile {
    Main,
}

/// Rate control capabilities supported by the encode profile
#[derive(Debug, Clone, Copy, PartialEq, Eq, Structural)]
pub struct RateControlCapabilities {
    pub vbr_supported: bool,
    pub cbr_supported: bool,
}

/// The device capabilities for encoding in a specific codec, at a specific profile
#[derive(Debug, Clone, Copy, PartialEq, Eq, Structural)]
pub struct EncodeProfileCapabilities {
    /// The minimum width of the coded image
    pub min_width: u32,
    /// The maximum width of the coded image
    pub max_width: u32,
    /// The minimum height of the coded image
    pub min_height: u32,
    /// The maximum height of the coded image
    pub max_height: u32,
    /// The supported rate control modes
    pub rate_control: RateControlCapabilities,
    /// Maximum number of back references a P-frame can have
    pub max_references: u32,
    /// Number of discrete quality levels the encoder reports
    pub quality_levels: u32,
}

/// The device capabilities for H265 encoding.
#[derive(Debug, Clone, Copy, PartialEq, Eq, Structural)]
pub struct EncodeH265Capabilities {
    pub main_profile: Option<EncodeProfileCapabilities>,
}

/// The device capabilities for H264 encoding.
#[derive(Debug, Clone, Copy, PartialEq, Eq, Structural)]
pub struct EncodeH264Capabilities {
    pub baseline_profile: Option<EncodeProfileCapabilities>,
    pub main_profile: Option<EncodeProfileCapabilities>,
    pub high_profile: Option<EncodeProfileCapabilities>,
}

/// The device capabilities for encoding
#[derive(Debug, Clone, Copy, PartialEq, Eq, Structural)]
pub struct EncodeCapabilities {
    pub h264: Option<EncodeH264Capabilities>,
    pub h265: Option<EncodeH265Capabilities>,
}

/// The device capabilities for H265 decoding in a specific profile
#[derive(Debug, Clone, Copy, PartialEq, Eq, Structural)]
pub struct DecodeH265ProfileCapabilities {
    /// The minimum width of the coded image
    pub min_width: u32,
    /// The maximum width of the coded image
    pub max_width: u32,
    /// The minimum height of the coded image
    pub min_height: u32,
    /// The maximum height of the coded image
    pub max_height: u32,
    /// The maximum H265 level
    pub max_level_idc: u8,
}

/// The device capabilities for H265 decoding.
#[derive(Debug, Clone, Copy, PartialEq, Eq, Structural)]
pub struct DecodeH265Capabilities {
    pub main_profile: Option<DecodeH265ProfileCapabilities>,
}

/// The device capabilities for H264 decoding in a specific profile
#[derive(Debug, Clone, Copy, PartialEq, Eq, Structural)]
pub struct DecodeH264ProfileCapabilities {
    /// The minimum width of the coded image
    pub min_width: u32,
    /// The maximum width of the coded image
    pub max_width: u32,
    /// The minimum height of the coded image
    pub min_height: u32,
    /// The maximum height of the coded image
    pub max_height: u32,
    /// The maximum H264 level
    pub max_level_idc: u8,
}

/// The device capabilities for H264 decoding.
#[derive(Debug, Clone, Copy, PartialEq, Eq, Structural)]
pub struct DecodeH264Capabilities {
    pub baseline_profile: Option<DecodeH264ProfileCapabilities>,
    pub main_profile: Option<DecodeH264ProfileCapabilities>,
    pub high_profile: Option<DecodeH264ProfileCapabilities>,
}

/// The device capabilities for decoding
#[derive(Debug, Clone, Copy, PartialEq, Eq, Structural)]
pub struct DecodeCapabilities {
    pub h264: Option<DecodeH264Capabilities>,
    pub h265: Option<DecodeH265Capabilities>,
}

/// The most capable H.265 profile that the capabilities list.
pub open spec fn spec_max_h265_profile(caps: EncodeH265Capabilities) -> Option<H265Profile> {
    if caps.main_profile.is_some() {
        Some(H265Profile::Main)
    } else {
        None
    }
}

/// The most capable H.264 profile that the capabilities list: High over Main over Baseline.
pub open spec fn spec_max_h264_profile(caps: EncodeH264Capabilities) -> Option<H264Profile> {
    if caps.high_profile.is_some() {
        Some(H264Profile::High)
    } else if caps.main_profile.is_some() {
        Some(H264Profile::Main)
    } else if caps.baseline_profile.is_some() {
        Some(H264Profile::Baseline)
    } else {
        None
    }
}

/// The best H.264 profile is `None` exactly when no profile is listed; otherwise it is a listed
/// profile and no richer one is listed (High over Main over Baseline).
pub proof fn law_max_h264_profile_is_the_richest_listed(caps: EncodeH264Capabilities)
    ensures
        spec_max_h264_profile(caps) is None <==> (caps.high_profile is None && caps.main_profile is None
            && caps.baseline_profile is None),
        spec_max_h264_profile(caps) == Some(H264Profile::High) <==> caps.high_profile is Some,
        spec_max_h264_profile(caps) == Some(H264Profile::Main) <==> (caps.main_profile is Some
            && caps.high_profile is None),
        spec_max_h264_profile(caps) == Some(H264Profile::Baseline) <==> (caps.baseline_profile is Some
            && caps.main_profile is None && caps.high_profile is None),
{
}

/// The best H.265 profile is Main exactly when Main is listed, `None` otherwise.
pub proof fn law_max_h265_profile_is_the_richest_listed(caps: EncodeH265Capabilities)
    ensures
        spec_max_h265_profile(caps) is None <==> caps.main_profile is None,
        spec_max_h265_profile(caps) == Some(H265Profile::Main) <==> caps.main_profile is Some,
{
}

impl EncodeH265Capabilities {
    pub fn max_profile(&self) -> (r: Option<H265Profile>)
        ensures
            r == spec_max_h265_profile(*self),
            r is None <==> self.main_profile is None,
            r == Some(H265Profile::Main) <==> self.main_profile is Some,
    {
        if self.main_profile.is_some() {
            Some(H265Profile::Main)
        } else {
            None
        }
    }
}

impl EncodeH264Capabilities {
    pub fn max_profile(&self) -> (r: Option<H264Profile>)
        ensures
            r == spec_max_h264_profile(*self),
            r is None <==> (self.high_profile is None && self.main_profile is None
                && self.baseline_profile is None),
            r == Some(H264Profile::High) <==> self.high_profile is Some,
            r == Some(H264Profile::Main) <==> (self.main_profile is Some && self.high_profile is None),
            r == Some(H264Profile::Baseline) <==> (self.baseline_profile is Some
                && self.main_profile is None && self.high_profile is None),
    {
        if self.high_profile.is_some() {
            Some(H264Profile::High)
        } else if self.main_profile.is_some() {
            Some(H264Profile::Main)
        } else if self.baseline_profile.is_some() {
            Some(H264Profile::Baseline)
        } else {
            None
        }
    }
}

/// Smallest coded dimension assumed for VideoToolbox, which does not report one.
pub const ASSUMED_MIN_DIMENSION: u32 = 16;
/// Largest coded dimension assumed for VideoToolbox, which does not report one.
pub const ASSUMED_MAX_DIMENSION: u32 = 8192;
/// Highest H.264 level assumed for VideoToolbox.
pub const ASSUMED_H264_MAX_LEVEL_IDC: u8 = 62;
/// Highest H.265 level assumed for VideoToolbox.
pub const ASSUMED_H265_MAX_LEVEL_IDC: u8 = 186;
/// VideoToolbox manages the reference list internally and never exposes a maximum. `0` here
/// means "not reported", it does not mean the encoder cannot use references.
pub const ASSUMED_ENCODE_MAX_REFERENCES: u32 = 0;
/// VideoToolbox exposes a continuous quality property instead of discrete levels.
pub const ASSUMED_ENCODE_QUALITY_LEVELS: u32 = 0;

pub open spec fn assumed_h264_decode_profile() -> DecodeH264ProfileCapabilities {
    DecodeH264ProfileCapabilities {
        min_width: ASSUMED_MIN_DIMENSION,
        max_width: ASSUMED_MAX_DIMENSION,
        min_height: ASSUMED_MIN_DIMENSION,
        max_height: ASSUMED_MAX_DIMENSION,
        max_level_idc: ASSUMED_H264_MAX_LEVEL_IDC,
    }
}

/// VideoToolbox H.264 decoding: it reports support per codec only, and Apple hardware decoders
/// handle baseline, main and high, so all three are listed with the assumed limits.
pub fn decode_h264_capabilities() -> (r: DecodeH264Capabilities)
    ensures
        r == (DecodeH264Capabilities {
            baseline_profile: Some(assumed_h264_decode_profile()),
            main_profile: Some(assumed_h264_decode_profile()),
            high_profile: Some(assumed_h264_decode_profile()),
        }),
{
    let profile = DecodeH264ProfileCapabilities {
        min_width: ASSUMED_MIN_DIMENSION,
        max_width: ASSUMED_MAX_DIMENSION,
        min_height: ASSUMED_MIN_DIMENSION,
        max_height: ASSUMED_MAX_DIMENSION,
        max_level_idc: ASSUMED_H264_MAX_LEVEL_IDC,
    };
    DecodeH264Capabilities {
        baseline_profile: Some(profile),
        main_profile: Some(profile),
        high_profile: Some(profile),
    }
}

/// VideoToolbox H.265 decoding: the main profile with the assumed limits.
pub fn decode_h265_capabilities() -> (r: DecodeH265Capabilities)
    ensures
        r == (DecodeH265Capabilities {
            main_profile: Some(
                DecodeH265ProfileCapabilities {
                    min_width: ASSUMED_MIN_DIMENSION,
                    max_width: ASSUMED_MAX_DIMENSION,
                    min_height: ASSUMED_MIN_DIMENSION,
                    max_height: ASSUMED_MAX_DIMENSION,
                    max_level_idc: ASSUMED_H265_MAX_LEVEL_IDC,
                },
            ),
        }),
{
    DecodeH265Capabilities {
        main_profile: Some(
            DecodeH265ProfileCapabilities {
                min_width: ASSUMED_MIN_DIMENSION,
                max_width: ASSUMED_MAX_DIMENSION,
                min_height: ASSUMED_MIN_DIMENSION,
                max_height: ASSUMED_MAX_DIMENSION,
                max_level_idc: ASSUMED_H265_MAX_LEVEL_IDC,
            },
        ),
    }
}

pub open spec fn spec_encode_profile_capabilities(cbr_supported: bool) -> EncodeProfileCapabilities {
    EncodeProfileCapabilities {
        min_width: ASSUMED_MIN_DIMENSION,
        max_width: ASSUMED_MAX_DIMENSION,
        min_height: ASSUMED_MIN_DIMENSION,
        max_height: ASSUMED_MAX_DIMENSION,
        rate_control: RateControlCapabilities { vbr_supported: true, cbr_supported },
        max_references: ASSUMED_ENCODE_MAX_REFERENCES,
        quality_levels: ASSUMED_ENCODE_QUALITY_LEVELS,
    }
}

/// VideoToolbox encoding in one profile: the assumed limits, variable bitrate always, and
/// constant bitrate when the hardware encoder lists the constant bitrate property.
pub fn encode_profile_capabilities(cbr_supported: bool) -> (r: EncodeProfileCapabilities)
    ensures
        r == spec_encode_profile_capabilities(cbr_supported),
{
    EncodeProfileCapabilities {
        min_width: ASSUMED_MIN_DIMENSION,
        max_width: ASSUMED_MAX_DIMENSION,
        min_height: ASSUMED_MIN_DIMENSION,
        max_height: ASSUMED_MAX_DIMENSION,
        rate_control: RateControlCapabilities { vbr_supported: true, cbr_supported },
        max_references: ASSUMED_ENCODE_MAX_REFERENCES,
        quality_levels: ASSUMED_ENCODE_QUALITY_LEVELS,
    }
}

/// VideoToolbox H.264 encoding: baseline, main and high with the same probed capabilities.
pub fn encode_h264_capabilities(cbr_supported: bool) -> (r: EncodeH264Capabilities)
    ensures
        r == (EncodeH264Capabilities {
            baseline_profile: Some(spec_encode_profile_capabilities(cbr_supported)),
            main_profile: Some(spec_encode_profile_capabilities(cbr_supported)),
            high_profile: Some(spec_encode_profile_capabilities(cbr_supported)),
        }),
{
    let profile = encode_profile_capabilities(cbr_supported);
    EncodeH264Capabilities {
        baseline_profile: Some(profile),
        main_profile: Some(profile),
        high_profile: Some(profile),
    }
}

/// VideoToolbox H.265 encoding: the main profile with the probed capabilities.
pub fn encode_h265_capabilities(cbr_supported: bool) -> (r: EncodeH265Capabilities)
    ensures
        r == (EncodeH265Capabilities {
            main_profile: Some(spec_encode_profile_capabilities(cbr_supported)),
        }),
{
    EncodeH265Capabilities { main_profile: Some(encode_profile_capabilities(cbr_supported)) }
}

/// Decoding capabilities from the hardware decode support of each codec.
pub fn query_decode_capabilities(h264_supported: bool, h265_supported: bool) -> (r:
    DecodeCapabilities)
    ensures
        r.h264 is Some <==> h264_supported,
        r.h265 is Some <==> h265_supported,
        r.h264 matches Some(c) ==> c == decode_h264_capabilities_spec(),
        r.h265 matches Some(c) ==> c == decode_h265_capabilities_spec(),
{
    DecodeCapabilities {
        h264: if h264_supported {
            Some(decode_h264_capabilities())
        } else {
            None
        },
        h265: if h265_supported {
            Some(decode_h265_capabilities())
        } else {
            None
        },
    }
}

pub open spec fn decode_h264_capabilities_spec() -> DecodeH264Capabilities {
    DecodeH264Capabilities {
        baseline_profile: Some(assumed_h264_decode_profile()),
        main_profile: Some(assumed_h264_decode_profile()),
        high_profile: Some(assumed_h264_decode_profile()),
    }
}

pub open spec fn decode_h265_capabilities_spec() -> DecodeH265Capabilities {
    DecodeH265Capabilities {
        main_profile: Some(
            DecodeH265ProfileCapabilities {
                min_width: ASSUMED_MIN_DIMENSION,
                max_width: ASSUMED_MAX_DIMENSION,
                min_height: ASSUMED_MIN_DIMENSION,
                max_height: ASSUMED_MAX_DIMENSION,
                max_level_idc: ASSUMED_H265_MAX_LEVEL_IDC,
            },
        ),
    }
}

/// Encoding capabilities from the hardware encoders found for each codec: `None` when there is
/// no hardware encoder for it, else whether it supports constant bitrate.
pub fn query_encode_capabilities(h264_cbr: Option<bool>, h265_cbr: Option<bool>) -> (r:
    EncodeCapabilities)
    ensures
        r.h264 is Some <==> h264_cbr is Some,
        r.h265 is Some <==> h265_cbr is Some,
        h264_cbr matches Some(cbr) ==> r.h264 == Some(
            EncodeH264Capabilities {
                baseline_profile: Some(spec_encode_profile_capabilities(cbr)),
                main_profile: Some(spec_encode_profile_capabilities(cbr)),
                high_profile: Some(spec_encode_profile_capabilities(cbr)),
            },
        ),
        h265_cbr matches Some(cbr) ==> r.h265 == Some(
            EncodeH265Capabilities { main_profile: Some(spec_encode_profile_capabilities(cbr)) },
        ),
{
    EncodeCapabilities {
        h264: match h264_cbr {
            Some(cbr) => Some(encode_h264_capabilities(cbr)),
            None => None,
        },
        h265: match h265_cbr {
            Some(cbr) => Some(encode_h265_capabilities(cbr)),
            None => None,
        },
    }
}

/// Whether any codec can be decoded.
pub fn supports_decoding(caps: &DecodeCapabilities) -> (r: bool)
    ensures
        r == (caps.h264 is Some || caps.h265 is Some),
{
    caps.h264.is_some() || caps.h265.is_some()
}

/// Whether any codec can be encoded.
pub fn supports_encoding(caps: &EncodeCapabilities) -> (r: bool)
    ensures
        r == (caps.h264 is Some || caps.h265 is Some),
{
    caps.h264.is_some() || caps.h265.is_some()
}

} // verus!
