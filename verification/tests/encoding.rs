use ash::vk;
use gpu_video::vulkan_params::VideoEncoderError;
use gpu_video::capabilities::H264Profile;
use gpu_video::encoder_state::{EncoderFrameState, FramePlan};
use gpu_video::params::{
    BufferDuration, ColorRange, ColorSpace, EncoderOutputParameters, EncoderPreset, EncoderUsage,
    RateControl, Rational, RATE_CONTROL_MODE_CBR, RATE_CONTROL_MODE_DISABLED, RATE_CONTROL_MODE_VBR,
    VIDEO_ENCODE_USAGE_DEFAULT, VIDEO_ENCODE_USAGE_STREAMING,
};
use gpu_video::vulkan_params::{
    check_raw_frame, finish_encode_download, prepended_stream_params, quality_and_tuning, rate_control_plan,
    resolve_idr_period, resolve_max_references, validate_and_fill_encoder_parameters,
    EncodeProfileLimits, QualityLevelProperties, RateControlInfo, RateControlLayer,
    VulkanEncoderError, QUERY_RESULT_STATUS_COMPLETE, TUNING_MODE_DEFAULT,
    TUNING_MODE_HIGH_QUALITY, TUNING_MODE_LOW_LATENCY,
};

#[test]
fn unforced_frames_are_idr_once_per_period() {
    let mut state = EncoderFrameState::new(3, 2);
    let mut pattern = Vec::new();
    for slot in 0..7 {
        let plan = state.begin_frame(false);
        pattern.push(plan.is_idr);
        state.end_frame(slot);
    }
    assert_eq!(pattern, vec![true, false, false, true, false, false, true]);
}

#[test]
fn forced_idr_restarts_the_period() {
    let mut state = EncoderFrameState::new(3, 2);
    assert!(state.begin_frame(false).is_idr);
    state.end_frame(0);
    assert!(!state.begin_frame(false).is_idr);
    state.end_frame(1);
    assert_eq!(state.begin_frame(true), FramePlan { is_idr: true, evicted_slot: None });
    assert!(state.active_reference_slots().is_empty());
    state.end_frame(2);
    assert!(!state.begin_frame(false).is_idr);
    state.end_frame(3);
    assert!(!state.begin_frame(false).is_idr);
    state.end_frame(4);
    assert!(state.begin_frame(false).is_idr);
}

#[test]
fn oldest_reference_is_evicted_when_the_dpb_is_full() {
    let mut state = EncoderFrameState::new(100, 2);
    assert!(state.begin_frame(false).is_idr);
    state.end_frame(10);
    assert_eq!(state.begin_frame(false).evicted_slot, None);
    state.end_frame(11);
    assert_eq!(state.begin_frame(false).evicted_slot, None);
    state.end_frame(12);
    assert_eq!(state.active_reference_slots(), &vec![10, 11, 12]);
    assert_eq!(state.references_most_recent_first(), vec![12, 11, 10]);
    assert_eq!(state.begin_frame(false), FramePlan { is_idr: false, evicted_slot: Some(10) });
    assert_eq!(state.active_reference_slots(), &vec![11, 12]);
}

fn limits(levels: Vec<u32>) -> EncodeProfileLimits {
    EncodeProfileLimits {
        quality_levels: levels
            .into_iter()
            .map(|preferred_idr_period| QualityLevelProperties { preferred_idr_period })
            .collect(),
        min_coded_width: 16,
        min_coded_height: 16,
        max_coded_width: 4096,
        max_coded_height: 2304,
        rate_control_modes: RATE_CONTROL_MODE_VBR | RATE_CONTROL_MODE_DISABLED,
        max_references: 4,
    }
}

fn output(rate_control: RateControl, preset: EncoderPreset) -> EncoderOutputParameters<H264Profile> {
    EncoderOutputParameters {
        idr_period: None,
        rate_control,
        max_references: None,
        profile: H264Profile::High,
        preset,
        usage_flags: None,
        inline_stream_params: None,
        color_space: None,
        color_range: None,
    }
}

fn parameters_error(result: Result<impl Sized, VulkanEncoderError>) -> (&'static str, String) {
    match result {
        Err(VulkanEncoderError::ParametersError { field, problem }) => (field, problem),
        Err(other) => panic!("unexpected error {other:?}"),
        Ok(_) => panic!("expected a parameters error"),
    }
}

#[test]
fn encoder_parameters_are_completed_from_device_limits() {
    let full = validate_and_fill_encoder_parameters(
        &limits(vec![0, 60, 0]),
        output(RateControl::Disabled, EncoderPreset::Balanced),
        1280,
        720,
        Rational { numerator: 30, denominator: 1 },
    )
    .unwrap();
    assert_eq!(full.quality_level, 1);
    assert_eq!(full.tuning_mode, TUNING_MODE_DEFAULT);
    assert_eq!(full.idr_period, 60);
    assert_eq!(full.max_references, 4);
    assert_eq!(full.usage_flags, VIDEO_ENCODE_USAGE_DEFAULT);
    assert!(full.inline_stream_params);
    assert_eq!(full.color_space, ColorSpace::Unspecified);
    assert_eq!(full.color_range, ColorRange::Limited);
    assert_eq!((full.width, full.height), (1280, 720));
}

#[test]
fn encoder_parameter_problems_are_reported_in_order() {
    let l = limits(vec![0]);
    let fr = Rational { numerator: 30, denominator: 1 };
    let (field, problem) = parameters_error(validate_and_fill_encoder_parameters(
        &l,
        output(RateControl::Disabled, EncoderPreset::LowLatency),
        8,
        8,
        fr,
    ));
    assert_eq!(field, "width");
    assert_eq!(problem, "Width is 8, should be between 16 and 4096.");
    let (field, problem) = parameters_error(validate_and_fill_encoder_parameters(
        &l,
        output(RateControl::Disabled, EncoderPreset::LowLatency),
        64,
        4000,
        fr,
    ));
    assert_eq!(field, "height");
    assert_eq!(problem, "Height is 4000, should be between 16 and 2304.");
    let (field, problem) = parameters_error(validate_and_fill_encoder_parameters(
        &l,
        output(
            RateControl::ConstantBitrate { bitrate: 1, virtual_buffer_size: BufferDuration { secs: 1, nanos: 0 } },
            EncoderPreset::LowLatency,
        ),
        64,
        64,
        fr,
    ));
    assert_eq!(field, "rate_control");
    assert_eq!(
        problem,
        format!(
            "Rate control has mode {:?}. Supported modes are: {:?}.",
            ash::vk::VideoEncodeRateControlModeFlagsKHR::CBR,
            ash::vk::VideoEncodeRateControlModeFlagsKHR::VBR
                | ash::vk::VideoEncodeRateControlModeFlagsKHR::DISABLED
        )
    );
    let (field, problem) = parameters_error(validate_and_fill_encoder_parameters(
        &l,
        output(RateControl::Disabled, EncoderPreset::LowLatency),
        64,
        64,
        Rational { numerator: u32::MAX, denominator: 1 },
    ));
    assert_eq!(field, "framerate");
    assert_eq!(problem, "Framerate numerator * 2 must fit in u32");
    let (field, problem) = parameters_error(validate_and_fill_encoder_parameters(
        &l,
        output(RateControl::Disabled, EncoderPreset::LowLatency),
        64,
        64,
        Rational { numerator: 0, denominator: 1 },
    ));
    assert_eq!(field, "framerate");
    assert_eq!(problem, "Framerate is Rational { numerator: 0, denominator: 1 }. The numerator should be != 0.");
    assert_eq!(
        format!("{:?}", Rational { numerator: 0, denominator: 1 }),
        "Rational { numerator: 0, denominator: 1 }"
    );
}

#[test]
fn unsupported_rate_control_names_the_modes() {
    let mut l = limits(vec![0]);
    let cbr = output(
        RateControl::ConstantBitrate { bitrate: 1, virtual_buffer_size: BufferDuration { secs: 1, nanos: 0 } },
        EncoderPreset::LowLatency,
    );
    let fr = Rational { numerator: 30, denominator: 1 };
    let (_, problem) = parameters_error(validate_and_fill_encoder_parameters(&l, cbr, 64, 64, fr));
    assert_eq!(problem, "Rate control has mode CBR. Supported modes are: DISABLED | VBR.");
    l.rate_control_modes = RATE_CONTROL_MODE_VBR | 0x18;
    let (_, problem) = parameters_error(validate_and_fill_encoder_parameters(&l, cbr, 64, 64, fr));
    assert_eq!(problem, "Rate control has mode CBR. Supported modes are: VBR | 11000.");
    l.rate_control_modes = 0;
    let (_, problem) = parameters_error(validate_and_fill_encoder_parameters(&l, cbr, 64, 64, fr));
    assert_eq!(problem, "Rate control has mode CBR. Supported modes are: .");
}

#[test]
fn explicit_encoder_choices_are_kept() {
    let mut params = output(RateControl::Disabled, EncoderPreset::HighQuality);
    params.idr_period = Some(12);
    params.max_references = Some(9);
    params.usage_flags = Some(EncoderUsage::Streaming);
    params.inline_stream_params = Some(false);
    params.color_space = Some(ColorSpace::BT709);
    params.color_range = Some(ColorRange::Full);
    let full = validate_and_fill_encoder_parameters(
        &limits(vec![0, 0, 0, 0]),
        params,
        64,
        64,
        Rational { numerator: 25, denominator: 1 },
    )
    .unwrap();
    assert_eq!(full.quality_level, 3);
    assert_eq!(full.tuning_mode, TUNING_MODE_HIGH_QUALITY);
    assert_eq!(full.idr_period, 12);
    assert_eq!(full.max_references, 4);
    assert_eq!(full.usage_flags, VIDEO_ENCODE_USAGE_STREAMING);
    assert!(!full.inline_stream_params);
    assert_eq!(full.color_space, ColorSpace::BT709);
    assert_eq!(full.color_range, ColorRange::Full);
}

#[test]
fn defaults_resolve() {
    assert_eq!(quality_and_tuning(EncoderPreset::LowLatency, 5), (0, TUNING_MODE_LOW_LATENCY));
    assert_eq!(quality_and_tuning(EncoderPreset::Balanced, 5), (2, TUNING_MODE_DEFAULT));
    assert_eq!(quality_and_tuning(EncoderPreset::HighQuality, 0), (0, TUNING_MODE_HIGH_QUALITY));
    assert_eq!(resolve_idr_period(0, None), 30);
    assert_eq!(resolve_idr_period(45, None), 45);
    assert_eq!(resolve_idr_period(45, Some(7)), 7);
    assert_eq!(resolve_max_references(3, None), 3);
    assert_eq!(resolve_max_references(3, Some(2)), 2);
    assert_eq!(resolve_max_references(3, Some(9)), 3);
    assert_eq!(resolve_max_references(0, Some(0)), 1);
}

#[test]
fn raw_frames_are_checked_against_the_input_extent() {
    assert!(check_raw_frame(4, 2, 12, 4, 2).is_ok());
    match check_raw_frame(4, 2, 12, 8, 2) {
        Err(VulkanEncoderError::WrongFrameDimensions { provided, expected }) => {
            assert_eq!(provided, (4, 2));
            assert_eq!(expected, (8, 2));
        }
        other => panic!("unexpected {other:?}"),
    }
    match check_raw_frame(4, 2, 11, 4, 2) {
        Err(VulkanEncoderError::InconsistentPictureByteSize { bytes, size_from_resolution }) => {
            assert_eq!((bytes, size_from_resolution), (11, 12));
        }
        other => panic!("unexpected {other:?}"),
    }
}

#[test]
fn finished_encodes_carry_their_prefix() {
    let chunk = finish_encode_download(QUERY_RESULT_STATUS_COMPLETE, vec![1, 2], &[3, 4], Some(5), true).unwrap();
    assert_eq!(chunk.data, vec![1, 2, 3, 4]);
    assert_eq!(chunk.pts, Some(5));
    assert!(chunk.is_keyframe);
    assert_eq!(QUERY_RESULT_STATUS_COMPLETE, ash::vk::QueryResultStatusKHR::COMPLETE.as_raw());
    match finish_encode_download(-1, Vec::new(), &[], None, false) {
        Err(VulkanEncoderError::EncodeOperationFailed(status)) => assert_eq!(status, -1),
        Err(other) => panic!("unexpected {other:?}"),
        Ok(_) => panic!("a failed query is an error"),
    }
}

#[test]
fn stream_parameters_go_before_idr_pictures_only() {
    assert_eq!(prepended_stream_params(true, true, vec![0, 0, 0, 1, 0x67]), vec![0, 0, 0, 1, 0x67]);
    assert!(prepended_stream_params(false, true, vec![0, 0, 0, 1, 0x67]).is_empty());
    assert!(prepended_stream_params(true, false, vec![0, 0, 0, 1, 0x67]).is_empty());
    assert!(prepended_stream_params(false, false, vec![1]).is_empty());
}

#[test]
fn rate_control_plans() {
    let fr = Rational { numerator: 30, denominator: 1 };
    assert!(rate_control_plan(RateControl::EncoderDefault, fr, Some(1)).is_none());
    assert!(rate_control_plan(RateControl::Disabled, fr, None).is_none());
    assert!(rate_control_plan(RateControl::Disabled, fr, Some(0)).is_none());
    let (info, layers) = rate_control_plan(
        RateControl::VariableBitrate {
            average_bitrate: 1000,
            max_bitrate: 2000,
            virtual_buffer_size: BufferDuration { secs: 2, nanos: 5_000_000 },
        },
        fr,
        Some(2),
    )
    .unwrap();
    assert_eq!(
        info,
        RateControlInfo {
            mode: RATE_CONTROL_MODE_VBR,
            virtual_buffer_size_in_ms: 2005,
            initial_virtual_buffer_size_in_ms: 0,
            layer_count: 2,
        }
    );
    assert_eq!(
        layers,
        vec![
            RateControlLayer { frame_rate_numerator: 30, frame_rate_denominator: 1, average_bitrate: 1000, max_bitrate: 2000 };
            2
        ]
    );
    let (info, layers) = rate_control_plan(
        RateControl::ConstantBitrate { bitrate: 500, virtual_buffer_size: BufferDuration { secs: 0, nanos: 999_999 } },
        fr,
        Some(1),
    )
    .unwrap();
    assert_eq!(info.mode, RATE_CONTROL_MODE_CBR);
    assert_eq!(info.virtual_buffer_size_in_ms, 0);
    assert_eq!(layers[0].average_bitrate, 500);
    assert_eq!(layers[0].max_bitrate, 500);
    let (info, layers) = rate_control_plan(RateControl::Disabled, fr, Some(1)).unwrap();
    assert_eq!(info.layer_count, 0);
    assert_eq!(info.mode, RATE_CONTROL_MODE_DISABLED);
    assert_eq!(layers.len(), 1);
}

#[test]
fn vulkan_mode_values_match_ash() {
    assert_eq!(RATE_CONTROL_MODE_VBR, vk::VideoEncodeRateControlModeFlagsKHR::VBR.as_raw());
    assert_eq!(RATE_CONTROL_MODE_CBR, vk::VideoEncodeRateControlModeFlagsKHR::CBR.as_raw());
    assert_eq!(RATE_CONTROL_MODE_DISABLED, vk::VideoEncodeRateControlModeFlagsKHR::DISABLED.as_raw());
    assert_eq!(VIDEO_ENCODE_USAGE_STREAMING, vk::VideoEncodeUsageFlagsKHR::STREAMING.as_raw());
    assert_eq!(TUNING_MODE_LOW_LATENCY, vk::VideoEncodeTuningModeKHR::LOW_LATENCY.as_raw());
}

#[test]
fn vulkan_encoder_errors_become_user_errors() {
    match VideoEncoderError::from_vulkan_encoder_error(VulkanEncoderError::WrongFrameDimensions {
        provided: (1, 2),
        expected: (3, 4),
    }) {
        VideoEncoderError::InconsistentPictureDimensions { provided, expected } => {
            assert_eq!((provided, expected), ((1, 2), (3, 4)));
        }
        other => panic!("unexpected {other:?}"),
    }
    match VideoEncoderError::from_vulkan_encoder_error(VulkanEncoderError::VkError(-4)) {
        VideoEncoderError::BackendError(m) => {
            assert_eq!(m, format!("Vulkan error: {}", vk::Result::ERROR_DEVICE_LOST));
            assert_ne!(m, "Vulkan error: ");
        }
        other => panic!("unexpected {other:?}"),
    }
    match VideoEncoderError::from_vulkan_encoder_error(VulkanEncoderError::EncodeOperationFailed(-1)) {
        VideoEncoderError::BackendError(m) => assert_eq!(
            m,
            format!("Encode operation failed with status {:?}", vk::QueryResultStatusKHR::ERROR)
        ),
        other => panic!("unexpected {other:?}"),
    }
    match VideoEncoderError::from_vulkan_encoder_error(VulkanEncoderError::EncodeOperationFailed(-7)) {
        VideoEncoderError::BackendError(m) => assert_eq!(m, "Encode operation failed with status -7"),
        other => panic!("unexpected {other:?}"),
    }
    match VideoEncoderError::from_vulkan_encoder_error(VulkanEncoderError::NoMemory) {
        VideoEncoderError::BackendError(m) => {
            assert_eq!(m, "Cannot find enough memory of the right type on the device")
        }
        other => panic!("unexpected {other:?}"),
    }
    assert!(matches!(
        VideoEncoderError::from_vulkan_encoder_error(VulkanEncoderError::VulkanEncoderUnsupported),
        VideoEncoderError::EncoderUnsupported
    ));
}
