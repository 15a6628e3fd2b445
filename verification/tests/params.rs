use ash::vk;
use gpu_video::capabilities::{
    decode_h264_capabilities, encode_h264_capabilities, query_encode_capabilities,
    supports_decoding, supports_encoding, EncodeH264Capabilities, EncodeH265Capabilities,
    H264Profile, H265Profile, query_decode_capabilities,
};
use gpu_video::params::{
    BufferDuration, CodecColorDescription, ColorRange, ColorSpace, ColourDescription,
    DecoderUsage, EncoderUsage, MissedFrameHandling, RateControl, Rational, SpsColorInfo,
    VideoSignalType, RATE_CONTROL_MODE_DEFAULT,
};

#[test]
fn rationals_from_integers() {
    assert_eq!(Rational::from(30), Rational { numerator: 30, denominator: 1 });
}

#[test]
fn buffer_durations_in_milliseconds() {
    assert_eq!(BufferDuration { secs: 3, nanos: 250_000_000 }.as_millis_u32(), 3250);
    assert_eq!(BufferDuration { secs: 4_294_968, nanos: 0 }.as_millis_u32(), 704);
    assert!(BufferDuration { secs: 0, nanos: 0 }.is_zero());
    assert!(!BufferDuration { secs: 0, nanos: 1 }.is_zero());
}

fn sps(full: bool, cd: Option<(u8, u8, u8)>) -> SpsColorInfo {
    SpsColorInfo {
        video_signal_type: Some(VideoSignalType {
            video_full_range_flag: full,
            colour_description: cd.map(|(p, t, m)| ColourDescription {
                colour_primaries: p,
                transfer_characteristics: t,
                matrix_coefficients: m,
            }),
        }),
    }
}

#[test]
fn colors_are_read_from_the_sps() {
    assert_eq!(ColorSpace::from_sps(&sps(false, Some((1, 1, 1)))), ColorSpace::BT709);
    assert_eq!(ColorSpace::from_sps(&sps(false, Some((6, 6, 6)))), ColorSpace::BT601Ntsc);
    assert_eq!(ColorSpace::from_sps(&sps(false, Some((5, 6, 5)))), ColorSpace::BT601Pal);
    assert_eq!(ColorSpace::from_sps(&sps(false, Some((5, 5, 5)))), ColorSpace::Unspecified);
    assert_eq!(ColorSpace::from_sps(&SpsColorInfo { video_signal_type: None }), ColorSpace::Unspecified);
    assert_eq!(ColorRange::from_sps(&sps(true, None)), ColorRange::Full);
    assert_eq!(ColorRange::from_sps(&sps(false, None)), ColorRange::Limited);
    assert_eq!(ColorRange::from_sps(&SpsColorInfo { video_signal_type: None }), ColorRange::Limited);
}

#[test]
fn written_color_description_reads_back() {
    for space in [ColorSpace::Unspecified, ColorSpace::BT709, ColorSpace::BT601Ntsc, ColorSpace::BT601Pal] {
        let d = CodecColorDescription::from(space);
        let read = ColorSpace::from_sps(&sps(true, Some((d.colour_primaries, d.transfer_characteristics, d.matrix_coefficients))));
        assert_eq!(read, space);
    }
    assert_eq!(
        CodecColorDescription::from(ColorSpace::Unspecified),
        CodecColorDescription { colour_primaries: 2, transfer_characteristics: 2, matrix_coefficients: 2 }
    );
    assert_eq!(ColorSpace::default(), ColorSpace::Unspecified);
}

#[test]
fn usages_map_to_vulkan_flags() {
    assert_eq!(DecoderUsage::Transcoding.to_vk(), vk::VideoDecodeUsageFlagsKHR::TRANSCODING.as_raw());
    assert_eq!(DecoderUsage::Default.to_vk(), vk::VideoDecodeUsageFlagsKHR::DEFAULT.as_raw());
    assert_eq!(EncoderUsage::Recording.to_vk(), vk::VideoEncodeUsageFlagsKHR::RECORDING.as_raw());
    assert_eq!(RateControl::EncoderDefault.to_vk(), RATE_CONTROL_MODE_DEFAULT);
    assert_eq!(MissedFrameHandling::default(), MissedFrameHandling::Strict);
}

#[test]
fn max_profiles_prefer_the_richest() {
    let caps = encode_h264_capabilities(true);
    assert_eq!(caps.max_profile(), Some(H264Profile::High));
    let only_main = EncodeH264Capabilities { baseline_profile: caps.baseline_profile, main_profile: caps.main_profile, high_profile: None };
    assert_eq!(only_main.max_profile(), Some(H264Profile::Main));
    let none = EncodeH264Capabilities { baseline_profile: None, main_profile: None, high_profile: None };
    assert_eq!(none.max_profile(), None);
    assert_eq!(EncodeH265Capabilities { main_profile: None }.max_profile(), None);
    let h265 = query_encode_capabilities(None, Some(false)).h265.unwrap();
    assert_eq!(h265.max_profile(), Some(H265Profile::Main));
    assert!(!h265.main_profile.unwrap().rate_control.cbr_supported);
}

#[test]
fn capability_queries() {
    let decode = query_decode_capabilities(true, false);
    assert_eq!(decode.h264, Some(decode_h264_capabilities()));
    assert!(decode.h265.is_none());
    assert!(supports_decoding(&decode));
    assert!(!supports_encoding(&query_encode_capabilities(None, None)));
    let h264 = decode.h264.unwrap().high_profile.unwrap();
    assert_eq!((h264.min_width, h264.max_width, h264.max_level_idc), (16, 8192, 62));
}
