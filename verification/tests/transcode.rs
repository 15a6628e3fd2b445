use gpu_video::capabilities::{H264Profile, H265Profile};
use gpu_video::params::{EncoderOutputParameters, EncoderPreset, RateControl, Rational, RATE_CONTROL_MODE_DISABLED};
use gpu_video::transcode_plan::{
    check_output_count, descriptor_pool_limits, dispatch_group_count, metal_scale_kernel,
    pipeline_output_configs, push_constants, validate_transcoder_outputs,
    AnyEncoderOutputParameters, AnyFullEncoderParameters, MetalScaleKernel, OutputConfig,
    ScalingAlgorithm, TranscoderOutput, VulkanTranscoderError, MAX_OUTPUTS,
};
use gpu_video::vulkan_params::{EncodeProfileLimits, QualityLevelProperties, VulkanEncoderError};

#[test]
fn output_count_is_bounded() {
    assert!(check_output_count(1).is_ok());
    assert!(check_output_count(8).is_ok());
    match check_output_count(9) {
        Err(VulkanTranscoderError::WrongOutputNumber { expected_max, actual }) => {
            assert_eq!((expected_max, actual), (8, 9));
        }
        other => panic!("unexpected {other:?}"),
    }
    assert!(matches!(check_output_count(0), Err(VulkanTranscoderError::WrongOutputNumber { actual: 0, .. })));
    assert_eq!(
        VulkanTranscoderError::wrong_output_number_text(8, 9),
        "Wrong output number: expected a value between 0 and 8, found 9"
    );
    assert_eq!(MAX_OUTPUTS, 8);
}

#[test]
fn descriptor_pool_is_sized_per_resize() {
    assert_eq!(descriptor_pool_limits(0), (18, 3));
    assert_eq!(descriptor_pool_limits(4), (72, 12));
}

#[test]
fn dispatch_covers_whole_tiles() {
    assert_eq!(dispatch_group_count(&vec![(1920, 1080)]), 120 * 68);
    assert_eq!(dispatch_group_count(&vec![(16, 16), (17, 1), (0, 5)]), 1 + 2);
    assert_eq!(dispatch_group_count(&vec![]), 0);
}

#[test]
fn push_constants_list_scaling_codes() {
    let pc = push_constants(&vec![ScalingAlgorithm::Lanczos3, ScalingAlgorithm::NearestNeighbor], 640, 360);
    assert_eq!(pc.output_count, 2);
    assert_eq!((pc.width, pc.height), (640, 360));
    assert_eq!(pc.scaling_algorithm, [2, 0, 0, 0, 0, 0, 0, 0]);
    let pc = push_constants(&vec![ScalingAlgorithm::Bilinear; 8], 1, 1);
    assert_eq!(pc.scaling_algorithm, [1; 8]);
}

#[test]
fn metal_has_no_nearest_neighbor() {
    assert_eq!(metal_scale_kernel(ScalingAlgorithm::NearestNeighbor), MetalScaleKernel::Bilinear);
    assert_eq!(metal_scale_kernel(ScalingAlgorithm::Bilinear), MetalScaleKernel::Bilinear);
    assert_eq!(metal_scale_kernel(ScalingAlgorithm::Lanczos3), MetalScaleKernel::Lanczos);
}

fn limits() -> EncodeProfileLimits {
    EncodeProfileLimits {
        quality_levels: vec![QualityLevelProperties { preferred_idr_period: 0 }],
        min_coded_width: 16,
        min_coded_height: 16,
        max_coded_width: 1920,
        max_coded_height: 1080,
        rate_control_modes: RATE_CONTROL_MODE_DISABLED,
        max_references: 2,
    }
}

fn params<P>(profile: P) -> EncoderOutputParameters<P> {
    EncoderOutputParameters {
        idr_period: None,
        rate_control: RateControl::Disabled,
        max_references: None,
        profile,
        preset: EncoderPreset::LowLatency,
        usage_flags: None,
        inline_stream_params: None,
        color_space: None,
        color_range: None,
    }
}

#[test]
fn every_output_is_validated_in_order() {
    let outputs = vec![
        TranscoderOutput {
            output_width: 1280,
            output_height: 720,
            encoder_parameters: AnyEncoderOutputParameters::H264(params(H264Profile::Main)),
            scaling_algorithm: ScalingAlgorithm::Bilinear,
            limits: limits(),
        },
        TranscoderOutput {
            output_width: 640,
            output_height: 360,
            encoder_parameters: AnyEncoderOutputParameters::H265(params(H265Profile::Main)),
            scaling_algorithm: ScalingAlgorithm::Lanczos3,
            limits: limits(),
        },
    ];
    let fr = Rational { numerator: 30, denominator: 1 };
    let full = validate_transcoder_outputs(&outputs, fr).unwrap();
    assert_eq!(full.len(), 2);
    let AnyFullEncoderParameters::H265(second) = full[1] else { panic!("second output is H.265") };
    assert_eq!((second.width, second.height), (640, 360));
    assert_eq!(second.idr_period, 30);
    let configs = pipeline_output_configs(&full, &vec![ScalingAlgorithm::Bilinear, ScalingAlgorithm::Lanczos3]);
    assert_eq!(
        configs,
        vec![
            OutputConfig { width: 1280, height: 720, scaling_algorithm: ScalingAlgorithm::Bilinear },
            OutputConfig { width: 640, height: 360, scaling_algorithm: ScalingAlgorithm::Lanczos3 },
        ]
    );
    assert_eq!(pipeline_output_configs(&full, &vec![ScalingAlgorithm::Bilinear]).len(), 1);

    let mut too_big = outputs;
    too_big[0].output_width = 4000;
    too_big[1].output_height = 4000;
    match validate_transcoder_outputs(&too_big, fr) {
        Err(VulkanEncoderError::ParametersError { field, problem }) => {
            assert_eq!(field, "width");
            assert_eq!(problem, "Width is 4000, should be between 16 and 1920.");
        }
        other => panic!("unexpected {other:?}"),
    }
}
