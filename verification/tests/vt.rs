use gpu_video::capabilities::{H264Profile, H265Profile};
use gpu_video::vt_encoder::{
    color_properties, color_tags, compression_preset, h264_profile_level, h265_profile_level,
    is_invalidated_session, plan_session_properties, ColorPrimariesTag, ColorProperty, ColorTags,
    ProfileLevel, TransferFunctionTag, YCbCrMatrixTag,
};
use gpu_video::adapter::DeviceType;
use gpu_video::capabilities::{query_decode_capabilities, query_encode_capabilities};
use gpu_video::params::{
    BufferDuration, ColorRange, ColorSpace, DecoderUsage, EncoderPreset, EncoderUsage, RateControl,
    Rational, VideoParameters,
};
use gpu_video::vt_backend::{
    MetalTextureError, VTAdapter, VTBackend, VTDecoderError, VTInitError, VTMachineFacts,
    VideoDecoderError,
};
use gpu_video::vt_decoder::{
    append_plane_rows, download_to_bytes, DecodeInfo, DecodeResultMetadata, PlaneData,
    SessionAction, SessionStep, SpsRecord, VTDecoderState,
};
use gpu_video::vt_encoder::{
    check_input_texture, check_output_status, check_texture_input, dimension_to_i32, is_keyframe,
    rate_control_setup, realtime_hint, require_even_for_420_subsampling, session_geometry,
    time_scale_for, uses_preset_base, Extent3d, RateControlSetup, SessionGeometry, TextureFacts,
    VTEncoderError, VTEncoderState, WgpuTextureProblem, PIXEL_FORMAT_NV12_FULL_RANGE,
    PIXEL_FORMAT_NV12_VIDEO_RANGE,
};
use gpu_video::vt_error::{osstatus, OSStatusError};

#[test]
fn osstatus_codes_map_to_errors() {
    assert_eq!(OSStatusError::from_code(-12900), OSStatusError::VTPropertyNotSupported);
    assert_eq!(OSStatusError::from_code(-6692), OSStatusError::CVRetry);
    assert_eq!(OSStatusError::from_code(42), OSStatusError::Unknown(42));
    assert_eq!(osstatus(0), Ok(()));
    assert_eq!(osstatus(-12902), Err(OSStatusError::VTParameter));
}

#[test]
fn osstatus_messages() {
    assert_eq!(OSStatusError::VTPropertyNotSupported.message(), "VT: property not supported");
    assert_eq!(OSStatusError::CVRetry.message(), "CVReturn: retry");
    assert_eq!(OSStatusError::Unknown(-1).message(), "unknown OSStatus error: -1");
    assert_eq!(OSStatusError::Unknown(17).message(), "unknown OSStatus error: 17");
    assert_eq!(
        OSStatusError::Unknown(i32::MIN).message(),
        format!("unknown OSStatus error: {}", i32::MIN)
    );
}

#[test]
fn decoder_error_messages() {
    assert_eq!(
        VTDecoderError::InvalidInputData("bad".to_string()).message(),
        "Invalid input data: bad"
    );
    assert_eq!(
        VTDecoderError::OSStatus(OSStatusError::VTInvalidSession).message(),
        "VT: invalid session"
    );
    assert_eq!(VTInitError::NotMetalBackend.message(), "wgpu device is not backed by Metal");
    assert_eq!(
        MetalTextureError::ExtractionFailed.message(),
        "Failed to extract Metal texture from CVMetalTexture"
    );
    assert_eq!(
        VideoDecoderError::InvalidInputData("x".to_string()).message(),
        "Invalid input data for the decoder: x."
    );
    let wrapped = VideoDecoderError::from_vt_decoder_error(VTDecoderError::NoSession);
    let VideoDecoderError::BackendError(m) = &wrapped else { panic!("expected a backend error") };
    assert_eq!(
        m,
        "Trying to decode with no session active (probably before receiving first SPS)"
    );
    assert_eq!(
        wrapped.message(),
        "Decoder error: Trying to decode with no session active (probably before receiving first SPS)"
    );
    let VideoDecoderError::BackendError(m) =
        VideoDecoderError::from_vt_init_error(VTInitError::Wgpu("boom".to_string()))
    else {
        panic!("expected a backend error")
    };
    assert_eq!(m, "boom");
}

#[test]
fn vt_adapter_description() {
    let instance = VTBackend.new_instance();
    assert_eq!(instance.iter_adapters(), vec![VTAdapter]);
    let info = VTAdapter.build_info(VTMachineFacts {
        cpu_brand: Some("Apple M2".to_string()),
        is_aarch64: true,
        os_product_version: None,
        decode_capabilities: query_decode_capabilities(true, false),
        encode_capabilities: query_encode_capabilities(None, None),
    });
    assert_eq!(info.name, "Apple M2");
    assert_eq!(info.device_type, DeviceType::IntegratedGpu);
    assert_eq!(info.api_version, "???");
    assert_eq!(info.device, "0");
    assert_eq!(info.vendor, "0");
    assert_eq!(info.driver_name, "");
    assert!(info.supports_decoding);
    assert!(!info.supports_encoding);
    let info = VTAdapter.build_info(VTMachineFacts {
        cpu_brand: None,
        is_aarch64: false,
        os_product_version: Some("15.1".to_string()),
        decode_capabilities: query_decode_capabilities(false, false),
        encode_capabilities: query_encode_capabilities(Some(true), None),
    });
    assert_eq!(info.name, "");
    assert_eq!(info.device_type, DeviceType::Other);
    assert_eq!(info.api_version, "15.1");
    assert!(!info.supports_decoding);
    assert!(info.supports_encoding);
}

fn sps(raw: Vec<u8>, color_range: ColorRange, dimensions: Result<(u32, u32), String>) -> SpsRecord {
    SpsRecord { raw, color_space: ColorSpace::BT709, color_range, dimensions }
}

fn payloads(step: SessionStep) -> Vec<Vec<u8>> {
    match step {
        SessionStep::Describe { parameter_sets, .. } => parameter_sets,
        SessionStep::Keep => panic!("expected a new format description"),
    }
}

#[test]
fn decoder_session_is_built_and_then_kept() {
    let mut decoder = VTDecoderState::new(DecoderUsage::Offline, false);
    decoder.process_sps(0, sps(vec![0, 0, 0, 1, 0x67, 0xaa], ColorRange::Full, Ok((64, 48))));
    decoder.process_pps(0, 0, vec![0, 0, 0, 1, 0x68, 0xbb]);
    assert_eq!(decoder.color_range_for(0), ColorRange::Full);
    assert_eq!(decoder.color_range_for(3), ColorRange::Limited);

    let step = decoder.session_step(0);
    let SessionStep::Describe { color_range, range_changed, .. } = &step else {
        panic!("a decoder without a session needs one");
    };
    assert_eq!(*color_range, ColorRange::Full);
    assert!(*range_changed);
    assert_eq!(payloads(step), vec![vec![0x67, 0xaa], vec![0x68, 0xbb]]);

    assert_eq!(
        decoder.session_action(ColorRange::Full, true, true),
        SessionAction::CreateSession {
            pixel_format: PIXEL_FORMAT_NV12_FULL_RANGE,
            disable_real_time: true,
            metal_compatible: false,
        }
    );
    decoder.session_created(ColorRange::Full);
    assert!(matches!(decoder.session_step(0), SessionStep::Keep));

    decoder.process_pps(0, 1, vec![0, 0, 0, 1, 0x68, 0xcc]);
    let step = decoder.session_step(0);
    let SessionStep::Describe { range_changed, .. } = &step else {
        panic!("a new parameter set needs a new format description");
    };
    assert!(!*range_changed);
    assert_eq!(payloads(step).len(), 3);
    assert_eq!(decoder.session_action(ColorRange::Full, false, true), SessionAction::ReplaceFormat);
    decoder.format_replaced();
    assert!(matches!(decoder.session_step(0), SessionStep::Keep));
    let SessionStep::Describe { color_range, range_changed, .. } = decoder.session_step(9) else {
        panic!("an unknown SPS decodes in the limited range, which differs");
    };
    assert_eq!(color_range, ColorRange::Limited);
    assert!(range_changed);
    assert_eq!(
        decoder.session_action(ColorRange::Limited, true, true),
        SessionAction::CreateSession {
            pixel_format: PIXEL_FORMAT_NV12_VIDEO_RANGE,
            disable_real_time: true,
            metal_compatible: false,
        }
    );
}

#[test]
fn streaming_decoder_keeps_real_time() {
    let decoder = VTDecoderState::new(DecoderUsage::Streaming, true);
    assert_eq!(
        decoder.session_action(ColorRange::Limited, false, false),
        SessionAction::CreateSession {
            pixel_format: PIXEL_FORMAT_NV12_VIDEO_RANGE,
            disable_real_time: false,
            metal_compatible: true,
        }
    );
}

#[test]
fn frame_metadata_checks() {
    let mut decoder = VTDecoderState::new(DecoderUsage::Default, false);
    let info = DecodeInfo { sps_id: 2, pts: Some(90), pic_order_cnt: 4, max_num_reorder_frames: 1 };
    let Err(VTDecoderError::InvalidInputData(m)) = decoder.frame_metadata(info, true) else {
        panic!("unknown SPS");
    };
    assert_eq!(m, "Unknown SPS id 2");

    decoder.process_sps(2, sps(vec![0, 0, 0, 1, 0x67], ColorRange::Limited, Err("Overflow".to_string())));
    let Err(VTDecoderError::InvalidInputData(m)) = decoder.frame_metadata(info, true) else {
        panic!("invalid SPS");
    };
    assert_eq!(m, "Invalid SPS: Overflow");

    decoder.process_sps(2, sps(vec![0, 0, 0, 1, 0x67], ColorRange::Limited, Ok((1920, 1080))));
    assert!(matches!(decoder.frame_metadata(info, true), Err(VTDecoderError::NoSession)));
    decoder.session_created(ColorRange::Limited);
    let metadata = decoder.frame_metadata(info, false).unwrap();
    assert_eq!(
        metadata,
        DecodeResultMetadata {
            pts: Some(90),
            pic_order_cnt: 4,
            max_num_reorder_frames: 1,
            is_idr: false,
            color_space: ColorSpace::BT709,
            color_range: ColorRange::Limited,
            cropped_width: 1920,
            cropped_height: 1080,
        }
    );
}

#[test]
fn picture_rows_are_packed_without_padding() {
    let luma: Vec<u8> = (0..12).collect();
    let chroma: Vec<u8> = (100..108).collect();
    let frame = download_to_bytes(
        2,
        3,
        PlaneData { data: &luma, stride: 4, width: 2, height: 3 },
        PlaneData { data: &chroma, stride: 4, width: 1, height: 2 },
    );
    assert_eq!(frame.width, 2);
    assert_eq!(frame.height, 3);
    assert_eq!(frame.frame, vec![0, 1, 4, 5, 8, 9, 100, 101, 104, 105]);

    let mut out = vec![7];
    append_plane_rows(&mut out, &[1, 2, 3], 5, 3, 1);
    assert_eq!(out, vec![7, 1, 2, 3]);
}

fn input(width: u32, height: u32, numerator: u32) -> VideoParameters {
    VideoParameters { width, height, target_framerate: Rational { numerator, denominator: 1 } }
}

#[test]
fn session_geometry_checks_dimensions() {
    assert_eq!(
        session_geometry(input(1280, 720, 30), None).unwrap(),
        SessionGeometry { width: 1280, height: 720, pixel_format: PIXEL_FORMAT_NV12_VIDEO_RANGE }
    );
    assert_eq!(
        session_geometry(input(1280, 720, 30), Some(ColorRange::Full)).unwrap().pixel_format,
        PIXEL_FORMAT_NV12_FULL_RANGE
    );
    let Err(VTEncoderError::Parameters { field, problem }) = session_geometry(input(1281, 720, 30), None)
    else {
        panic!("odd width");
    };
    assert_eq!(field, "input_parameters.width");
    assert_eq!(problem, "1281 has to be even for 4:2:0 chroma subsampling");
    let Err(VTEncoderError::Parameters { field, problem }) = dimension_to_i32(u32::MAX, "w") else {
        panic!("too wide");
    };
    assert_eq!(field, "w");
    assert_eq!(problem, "4294967295 has to fit in i32");
    assert!(require_even_for_420_subsampling(8, "h").is_ok());
}

#[test]
fn session_geometry_checks_height_after_width() {
    let Err(VTEncoderError::Parameters { field, problem }) = session_geometry(input(1280, 721, 30), None)
    else {
        panic!("odd height");
    };
    assert_eq!(field, "input_parameters.height");
    assert_eq!(problem, "721 has to be even for 4:2:0 chroma subsampling");
    let Err(VTEncoderError::Parameters { field, problem }) =
        session_geometry(input(1280, 3_000_000_000, 30), None)
    else {
        panic!("too tall");
    };
    assert_eq!(field, "input_parameters.height");
    assert_eq!(problem, "3000000000 has to fit in i32");
    // The width is checked before the height.
    let Err(VTEncoderError::Parameters { field, .. }) = session_geometry(input(1281, 721, 30), None)
    else {
        panic!("odd width and height");
    };
    assert_eq!(field, "input_parameters.width");
}

#[test]
fn time_scale_is_the_framerate_numerator() {
    assert_eq!(time_scale_for(60).unwrap(), 60);
    let Err(VTEncoderError::Parameters { field, problem }) = time_scale_for(0) else {
        panic!("zero framerate");
    };
    assert_eq!(field, "input_parameters.target_framerate");
    assert_eq!(problem, "the numerator (0) has to fit in 1..=i32::MAX");
}

#[test]
fn realtime_hints() {
    assert_eq!(realtime_hint(EncoderPreset::HighQuality, Some(EncoderUsage::Transcoding)), Some(false));
    assert_eq!(realtime_hint(EncoderPreset::HighQuality, Some(EncoderUsage::Streaming)), Some(true));
    assert_eq!(realtime_hint(EncoderPreset::LowLatency, None), Some(true));
    assert_eq!(realtime_hint(EncoderPreset::Balanced, Some(EncoderUsage::Default)), None);
    assert!(uses_preset_base(RateControl::EncoderDefault));
    assert!(!uses_preset_base(RateControl::Disabled));
}

#[test]
fn rate_control_setups() {
    let window = BufferDuration { secs: 1, nanos: 500 };
    assert_eq!(
        rate_control_setup(
            RateControl::VariableBitrate { average_bitrate: 5, max_bitrate: 9, virtual_buffer_size: window },
            false,
            false
        )
        .unwrap(),
        RateControlSetup::AverageBitrate { average_bitrate: 5, max_bitrate: 9, window_secs: 1, window_nanos: 500 }
    );
    let Err(VTEncoderError::Parameters { field, problem }) = rate_control_setup(
        RateControl::VariableBitrate {
            average_bitrate: 5,
            max_bitrate: 9,
            virtual_buffer_size: BufferDuration { secs: 0, nanos: 0 },
        },
        true,
        true,
    ) else {
        panic!("empty window");
    };
    assert_eq!(field, "rate_control.virtual_buffer_size");
    assert_eq!(problem, "must be non-zero for variable bitrate rate control");
    assert!(matches!(
        rate_control_setup(RateControl::ConstantBitrate { bitrate: 7, virtual_buffer_size: window }, false, true),
        Err(VTEncoderError::ConstantBitrateUnsupported)
    ));
    assert_eq!(
        rate_control_setup(RateControl::ConstantBitrate { bitrate: 7, virtual_buffer_size: window }, true, true)
            .unwrap(),
        RateControlSetup::ConstantBitrate { bitrate: 7 }
    );
    assert_eq!(rate_control_setup(RateControl::Disabled, true, false).unwrap(), RateControlSetup::QualityUnsupported);
    assert_eq!(rate_control_setup(RateControl::EncoderDefault, true, true).unwrap(), RateControlSetup::EncoderDefault);
}

#[test]
fn keyframes_and_output_status() {
    assert!(is_keyframe(None));
    assert!(is_keyframe(Some(None)));
    assert!(is_keyframe(Some(Some(false))));
    assert!(!is_keyframe(Some(Some(true))));
    assert!(check_output_status(0, false, true).is_ok());
    assert!(matches!(check_output_status(0, true, true), Err(VTEncoderError::FrameDropped)));
    assert!(matches!(check_output_status(0, false, false), Err(VTEncoderError::NoEncoderOutput)));
    assert!(matches!(
        check_output_status(-12912, false, true),
        Err(VTEncoderError::OSStatus(OSStatusError::VTVideoEncoderMalfunction))
    ));
}

#[test]
fn encoder_state_timing_and_sizes() {
    let mut state = VTEncoderState::new(input(64, 48, 30), None).unwrap();
    assert_eq!(state.next_frame_timing(), (0, 1, 30));
    assert_eq!(state.next_frame_timing(), (1, 1, 30));
    assert!(state.check_frame_size(64 * 48 * 3 / 2).is_ok());
    let Err(VTEncoderError::InconsistentPictureByteSize { bytes, size_from_resolution }) = state.check_frame_size(10)
    else {
        panic!("wrong size");
    };
    assert_eq!((bytes, size_from_resolution), (10, 4608));
    assert!(VTEncoderState::new(input(64, 48, 0), None).is_err());
}

#[test]
fn encoder_state_rebuilds_once_per_generation() {
    let mut state = VTEncoderState::new(input(64, 48, 30), Some(false)).unwrap();
    let generation = state.session_generation();
    assert!(state.needs_rebuild(generation));
    state.mark_rebuilt();
    assert!(!state.needs_rebuild(generation));
    assert_eq!(state.session_generation(), generation + 1);
}

#[test]
fn diverged_parameters_stop_out_of_band_encoders() {
    let mut state = VTEncoderState::new(input(64, 48, 30), Some(false)).unwrap();
    assert!(state.note_stream_parameters(&vec![1, 2], &vec![1, 2]).is_ok());
    assert!(state.check_can_encode().is_ok());
    assert!(matches!(state.note_stream_parameters(&vec![1, 2], &vec![1, 3]), Err(VTEncoderError::ParametersDiverged)));
    assert!(matches!(state.check_can_encode(), Err(VTEncoderError::ParametersDiverged)));

    let mut inline = VTEncoderState::new(input(64, 48, 30), None).unwrap();
    assert!(inline.note_stream_parameters(&vec![1], &vec![2]).is_ok());
    assert!(inline.check_can_encode().is_ok());
}

#[test]
fn chunks_carry_parameters_before_inline_keyframes() {
    let state = VTEncoderState::new(input(64, 48, 30), None).unwrap();
    let prefix = vec![0, 0, 0, 1, 0x67];
    let sample = [0, 0, 0, 1, 0x65];
    assert_eq!(
        state.assemble_chunk(true, &prefix, &sample, 4).unwrap(),
        vec![0, 0, 0, 1, 0x67, 0, 0, 0, 1, 0x65]
    );
    assert_eq!(state.assemble_chunk(false, &prefix, &sample, 4).unwrap(), vec![0, 0, 0, 1, 0x65]);
    assert!(matches!(
        state.assemble_chunk(true, &prefix, &[0, 0, 0, 9], 4),
        Err(VTEncoderError::TruncatedSample)
    ));
    let out_of_band = VTEncoderState::new(input(64, 48, 30), Some(false)).unwrap();
    assert_eq!(out_of_band.assemble_chunk(true, &prefix, &sample, 4).unwrap(), vec![0, 0, 0, 1, 0x65]);
}

fn texture(usage: u32, is_nv12: bool, width: u32, height: u32) -> TextureFacts {
    let format = if is_nv12 { wgpu::TextureFormat::NV12 } else { wgpu::TextureFormat::Rgba8Unorm };
    TextureFacts { usage, format, is_nv12, width, height, depth_or_array_layers: 1 }
}

#[test]
fn input_textures_are_checked_in_order() {
    let expected = Extent3d { width: 64, height: 48, depth_or_array_layers: 1 };
    assert_eq!(check_input_texture(texture(1, true, 64, 48), expected), Ok(()));
    assert_eq!(
        check_input_texture(texture(2, false, 1, 1), expected),
        Err(WgpuTextureProblem::NoCopySrcTextureUsage(2))
    );
    assert_eq!(
        check_input_texture(texture(3, false, 1, 1), expected),
        Err(WgpuTextureProblem::NotNV12Texture(wgpu::TextureFormat::Rgba8Unorm))
    );
    assert_eq!(
        check_input_texture(texture(1, true, 32, 48), expected),
        Err(WgpuTextureProblem::InconsistentPictureDimensions {
            provided: Extent3d { width: 32, height: 48, depth_or_array_layers: 1 },
            expected,
        })
    );
    assert_eq!(wgpu::TextureUsages::COPY_SRC.bits(), gpu_video::vt_encoder::TEXTURE_USAGE_COPY_SRC);

    let state = VTEncoderState::new(input(64, 48, 30), None).unwrap();
    assert!(matches!(
        check_texture_input(&state, false, texture(1, true, 64, 48), 64, 48),
        Err(VTEncoderError::NotConfiguredForWgpuInput)
    ));
    assert!(check_texture_input(&state, true, texture(1, true, 64, 48), 64, 48).is_ok());
    assert!(matches!(
        check_texture_input(&state, true, texture(1, false, 64, 48), 64, 48),
        Err(VTEncoderError::WgpuTexture(WgpuTextureProblem::NotNV12Texture(
            wgpu::TextureFormat::Rgba8Unorm
        )))
    ));
}

#[test]
fn pixel_formats_are_the_nv12_four_ccs() {
    assert_eq!(PIXEL_FORMAT_NV12_FULL_RANGE.to_be_bytes(), *b"420f");
    assert_eq!(PIXEL_FORMAT_NV12_VIDEO_RANGE.to_be_bytes(), *b"420v");
}

#[test]
fn session_properties_follow_the_output_parameters() {
    assert_eq!(h264_profile_level(H264Profile::Main), ProfileLevel::H264MainAutoLevel);
    assert_eq!(h265_profile_level(H265Profile::Main), ProfileLevel::HevcMainAutoLevel);
    assert_eq!(color_tags(ColorSpace::Unspecified), None);
    assert_eq!(
        color_tags(ColorSpace::BT601Pal),
        Some(ColorTags {
            primaries: ColorPrimariesTag::Ebu3213,
            transfer: TransferFunctionTag::ItuR709,
            matrix: YCbCrMatrixTag::ItuR601,
        })
    );
    assert!(color_properties(ColorSpace::Unspecified).is_empty());
    assert_eq!(
        color_properties(ColorSpace::BT601Ntsc),
        vec![
            ColorProperty::ColorPrimaries(ColorPrimariesTag::SmpteC),
            ColorProperty::TransferFunction(TransferFunctionTag::ItuR709),
            ColorProperty::YCbCrMatrix(YCbCrMatrixTag::ItuR601),
        ]
    );
    assert_eq!(compression_preset(EncoderPreset::LowLatency), ("HighSpeed", "kVTCompressionPreset_HighSpeed"));
    let plan = plan_session_properties(
        EncoderPreset::Balanced,
        Some(EncoderUsage::Transcoding),
        Some(60),
        RateControl::EncoderDefault,
        Some(ColorSpace::BT709),
        ProfileLevel::H264HighAutoLevel,
        false,
        false,
    );
    assert!(plan.apply_preset_base);
    assert!(!plan.allow_frame_reordering);
    assert_eq!(plan.real_time, Some(false));
    assert_eq!(plan.max_key_frame_interval, Some(60));
    assert_eq!(plan.profile_level, ProfileLevel::H264HighAutoLevel);
    assert_eq!(
        plan.color,
        Some(ColorTags {
            primaries: ColorPrimariesTag::ItuR709,
            transfer: TransferFunctionTag::ItuR709,
            matrix: YCbCrMatrixTag::ItuR709,
        })
    );
    assert_eq!(plan.rate_control.unwrap(), RateControlSetup::EncoderDefault);
    let plan = plan_session_properties(
        EncoderPreset::LowLatency,
        None,
        None,
        RateControl::ConstantBitrate { bitrate: 9, virtual_buffer_size: BufferDuration { secs: 1, nanos: 0 } },
        None,
        ProfileLevel::HevcMainAutoLevel,
        false,
        true,
    );
    assert!(!plan.apply_preset_base);
    assert_eq!(plan.real_time, Some(true));
    assert_eq!(plan.max_key_frame_interval, None);
    assert_eq!(plan.color, None);
    assert!(matches!(plan.rate_control, Err(VTEncoderError::ConstantBitrateUnsupported)));
}

#[test]
fn invalidated_sessions_are_recognized() {
    assert!(is_invalidated_session(&VTEncoderError::OSStatus(OSStatusError::VTInvalidSession)));
    assert!(!is_invalidated_session(&VTEncoderError::OSStatus(OSStatusError::VTParameter)));
    assert!(!is_invalidated_session(&VTEncoderError::FrameDropped));
}
