use ash::vk;
use gpu_video::adapter::{
    api_version_string, base_required_extensions, plan_device_queues, ComputeQueue, DeviceQueue, build_vulkan_adapter_info, decode_codec_extensions,
    decode_extensions, driver_strings, encode_codec_extensions, encode_extensions,
    extensions_to_codec_operations, find_family, has_extension, missing_extensions,
    plan_vulkan_adapter, required_extensions, select_compute_family, select_queues,
    supported_extensions, DeviceType, FamilyKind, QueueFamilyInfo, QueueIndex,
    VideoAdapterDescriptor, VulkanDeviceSummary, API_VERSION_1_2, CODEC_OPERATION_DECODE_H264,
    CODEC_OPERATION_DECODE_H265, CODEC_OPERATION_ENCODE_H264, QUEUE_COMPUTE, QUEUE_GRAPHICS,
    QUEUE_TRANSFER, QUEUE_VIDEO_DECODE, QUEUE_VIDEO_ENCODE,
};
use gpu_video::capabilities::{query_decode_capabilities, query_encode_capabilities};

fn vk_name(name: &'static core::ffi::CStr) -> &'static str {
    name.to_str().unwrap()
}

fn names(list: &[&str]) -> Vec<String> {
    list.iter().map(|s| s.to_string()).collect()
}

#[test]
fn extension_names_match_ash() {
    let s = |c: &'static _| -> &'static str { vk_name(c) };
    assert_eq!(base_required_extensions(), vec![s(vk::KHR_VIDEO_QUEUE_NAME), s(vk::KHR_VIDEO_MAINTENANCE1_NAME)]);
    assert_eq!(decode_extensions(), vec![s(vk::KHR_VIDEO_DECODE_QUEUE_NAME)]);
    assert_eq!(decode_codec_extensions(), vec![s(vk::KHR_VIDEO_DECODE_H264_NAME), s(vk::KHR_VIDEO_DECODE_H265_NAME)]);
    assert_eq!(encode_extensions(), vec![s(vk::KHR_VIDEO_ENCODE_QUEUE_NAME)]);
    assert_eq!(encode_codec_extensions(), vec![s(vk::KHR_VIDEO_ENCODE_H264_NAME), s(vk::KHR_VIDEO_ENCODE_H265_NAME)]);
}

#[test]
fn required_extensions_follow_support() {
    assert_eq!(required_extensions(false, false), vec!["VK_KHR_video_queue", "VK_KHR_video_maintenance1"]);
    assert_eq!(
        required_extensions(false, true),
        vec![
            "VK_KHR_video_queue",
            "VK_KHR_video_maintenance1",
            "VK_KHR_video_encode_queue",
            "VK_KHR_video_encode_h264",
            "VK_KHR_video_encode_h265"
        ]
    );
    assert_eq!(required_extensions(true, true).len(), 8);
}

#[test]
fn extension_lookup() {
    let available = names(&["VK_KHR_video_queue", "VK_KHR_video_decode_h264"]);
    assert!(has_extension(&available, "VK_KHR_video_queue"));
    assert!(!has_extension(&available, "VK_KHR_video_decode_h265"));
    assert_eq!(
        missing_extensions(&decode_codec_extensions(), &available),
        vec!["VK_KHR_video_decode_h265"]
    );
    assert_eq!(
        supported_extensions(&decode_codec_extensions(), &available),
        vec!["VK_KHR_video_decode_h264"]
    );
    assert_eq!(
        extensions_to_codec_operations(&vec!["VK_KHR_video_decode_h264", "VK_KHR_video_encode_h264", "other"]),
        CODEC_OPERATION_DECODE_H264 | CODEC_OPERATION_ENCODE_H264
    );
    assert_eq!(CODEC_OPERATION_DECODE_H265, vk::VideoCodecOperationFlagsKHR::DECODE_H265.as_raw());
    assert_eq!(CODEC_OPERATION_ENCODE_H264, vk::VideoCodecOperationFlagsKHR::ENCODE_H264.as_raw());
}

#[test]
fn api_versions_print_like_vulkan() {
    assert_eq!(api_version_string(vk::make_api_version(0, 1, 3, 281)), "1.3.281");
    assert_eq!(API_VERSION_1_2, vk::API_VERSION_1_2);
    assert_eq!(
        driver_strings(vk::API_VERSION_1_3, Some("radv".to_string()), None),
        ("radv".to_string(), String::new())
    );
    assert_eq!(
        driver_strings(vk::API_VERSION_1_1, Some("radv".to_string()), Some("x".to_string())),
        ("unknown".to_string(), String::new())
    );
}

#[test]
fn device_types_follow_vulkan() {
    assert_eq!(DeviceType::from_vk(vk::PhysicalDeviceType::DISCRETE_GPU.as_raw()), DeviceType::DiscreteGpu);
    assert_eq!(DeviceType::from_vk(vk::PhysicalDeviceType::CPU.as_raw()), DeviceType::Cpu);
    assert_eq!(DeviceType::from_vk(77), DeviceType::Other);
    let d = VideoAdapterDescriptor::default();
    assert!(d.supports_decoding && d.supports_encoding);
}

#[test]
fn adapter_info_prints_ids_in_decimal() {
    let info = build_vulkan_adapter_info(VulkanDeviceSummary {
        name: "GPU".to_string(),
        driver_name: "drv".to_string(),
        driver_info: "1.0".to_string(),
        device_type: 1,
        device_id: 0x1234,
        vendor_id: 0x10de,
        api_version: vk::make_api_version(0, 1, 2, 3),
        supports_decoding: true,
        supports_encoding: false,
        decode_capabilities: query_decode_capabilities(true, true),
        encode_capabilities: query_encode_capabilities(None, None),
    });
    assert_eq!(info.device, "4660");
    assert_eq!(info.vendor, "4318");
    assert_eq!(info.api_version, "1.2.3");
    assert_eq!(info.device_type, DeviceType::IntegratedGpu);
    assert_eq!(info.name, "GPU");
}

fn family(queue_flags: u32, queue_count: u32, video: Option<u32>) -> QueueFamilyInfo {
    QueueFamilyInfo { queue_flags, queue_count, video_codec_operations: video }
}

fn typical_families() -> Vec<QueueFamilyInfo> {
    vec![
        family(QUEUE_GRAPHICS | QUEUE_COMPUTE | QUEUE_TRANSFER, 1, None),
        family(QUEUE_COMPUTE | QUEUE_TRANSFER, 4, None),
        family(QUEUE_TRANSFER, 2, None),
        family(QUEUE_VIDEO_DECODE | QUEUE_TRANSFER, 1, Some(CODEC_OPERATION_DECODE_H264)),
        family(QUEUE_VIDEO_ENCODE | QUEUE_TRANSFER, 1, Some(CODEC_OPERATION_ENCODE_H264)),
    ]
}

#[test]
fn queue_families_are_found() {
    let fams = typical_families();
    assert_eq!(find_family(&fams, FamilyKind::DedicatedTransfer), Some(1));
    assert_eq!(find_family(&fams, FamilyKind::GraphicsTransferCompute), Some(0));
    assert_eq!(find_family(&fams, FamilyKind::DedicatedCompute), Some(1));
    assert_eq!(select_compute_family(&fams, 0), Some(1));
    let selection = select_queues(&fams, true, CODEC_OPERATION_DECODE_H264, true, CODEC_OPERATION_ENCODE_H264).unwrap();
    assert_eq!(selection.transfer, QueueIndex { family_index: 1, queue_count: 4 });
    assert_eq!(selection.graphics_transfer_compute, QueueIndex { family_index: 0, queue_count: 1 });
    assert_eq!(selection.compute, QueueIndex { family_index: 1, queue_count: 4 });
    assert_eq!(selection.h264_decode, Some(QueueIndex { family_index: 3, queue_count: 1 }));
    assert_eq!(selection.encode, Some(QueueIndex { family_index: 4, queue_count: 1 }));
    assert!(select_queues(&fams, false, 0, false, 0).is_none());
}

#[test]
fn graphics_family_shares_compute_when_it_has_two_queues() {
    let fams = vec![
        family(QUEUE_GRAPHICS | QUEUE_COMPUTE | QUEUE_TRANSFER, 2, None),
        family(QUEUE_TRANSFER, 1, None),
        family(QUEUE_VIDEO_DECODE, 1, Some(CODEC_OPERATION_DECODE_H264)),
    ];
    let selection = select_queues(&fams, true, CODEC_OPERATION_DECODE_H264, false, 0).unwrap();
    assert_eq!(selection.compute, QueueIndex { family_index: 0, queue_count: 2 });
    assert_eq!(selection.encode, None);
    let one_queue = vec![
        family(QUEUE_GRAPHICS | QUEUE_COMPUTE | QUEUE_TRANSFER, 1, None),
        family(QUEUE_TRANSFER, 1, None),
        family(QUEUE_VIDEO_DECODE, 1, Some(CODEC_OPERATION_DECODE_H264)),
    ];
    assert!(select_queues(&one_queue, true, CODEC_OPERATION_DECODE_H264, false, 0).is_none());
}

#[test]
fn vulkan_adapter_plans() {
    let fams = typical_families();
    let all = names(&[
        "VK_KHR_video_queue",
        "VK_KHR_video_maintenance1",
        "VK_KHR_video_decode_queue",
        "VK_KHR_video_decode_h264",
        "VK_KHR_video_encode_queue",
        "VK_KHR_video_encode_h264",
    ]);
    let plan = plan_vulkan_adapter(true, &all, &fams).unwrap();
    assert!(plan.supports_decoding && plan.supports_encoding);
    assert_eq!(plan.decode_operations, CODEC_OPERATION_DECODE_H264);
    assert!(plan_vulkan_adapter(false, &all, &fams).is_none());
    assert!(plan_vulkan_adapter(true, &all[1..].to_vec(), &fams).is_none());
    let decode_only = names(&["VK_KHR_video_queue", "VK_KHR_video_maintenance1", "VK_KHR_video_decode_queue", "VK_KHR_video_decode_h264"]);
    let plan = plan_vulkan_adapter(true, &decode_only, &fams).unwrap();
    assert!(plan.supports_decoding && !plan.supports_encoding);
    assert!(!plan.supports_any_encoding);
}

#[test]
fn queue_flag_values_match_ash() {
    assert_eq!(QUEUE_VIDEO_DECODE, vk::QueueFlags::VIDEO_DECODE_KHR.as_raw());
    assert_eq!(QUEUE_VIDEO_ENCODE, vk::QueueFlags::VIDEO_ENCODE_KHR.as_raw());
    assert_eq!(QUEUE_TRANSFER, vk::QueueFlags::TRANSFER.as_raw());
}

#[test]
fn device_queues_come_from_the_selected_families() {
    let selection = select_queues(&typical_families(), true, CODEC_OPERATION_DECODE_H264, true, CODEC_OPERATION_ENCODE_H264).unwrap();
    let plan = plan_device_queues(selection);
    assert_eq!(plan.transfer, DeviceQueue { family_index: 1, queue_index: 0 });
    assert_eq!(plan.compute, ComputeQueue::Queue(DeviceQueue { family_index: 1, queue_index: 1 }));
    assert_eq!(plan.wgpu, DeviceQueue { family_index: 0, queue_index: 0 });
    assert_eq!(plan.h264_decode, vec![DeviceQueue { family_index: 3, queue_index: 0 }]);
    assert_eq!(plan.encode, vec![DeviceQueue { family_index: 4, queue_index: 0 }]);

    let shared = vec![
        family(QUEUE_GRAPHICS | QUEUE_COMPUTE | QUEUE_TRANSFER, 1, None),
        family(QUEUE_COMPUTE | QUEUE_TRANSFER, 1, None),
        family(QUEUE_VIDEO_DECODE, 2, Some(CODEC_OPERATION_DECODE_H264)),
    ];
    let plan = plan_device_queues(select_queues(&shared, true, CODEC_OPERATION_DECODE_H264, false, 0).unwrap());
    assert_eq!(plan.compute, ComputeQueue::SameAsTransfer);
    assert_eq!(plan.h264_decode.len(), 2);
    assert!(plan.encode.is_empty());

    let separate = vec![
        family(QUEUE_GRAPHICS | QUEUE_COMPUTE | QUEUE_TRANSFER, 2, None),
        family(QUEUE_TRANSFER, 1, None),
        family(QUEUE_VIDEO_DECODE, 1, Some(CODEC_OPERATION_DECODE_H264)),
    ];
    let plan = plan_device_queues(select_queues(&separate, true, CODEC_OPERATION_DECODE_H264, false, 0).unwrap());
    // Compute falls back to wgpu's family and takes its second queue, not wgpu's.
    assert_eq!(plan.compute, ComputeQueue::Queue(DeviceQueue { family_index: 0, queue_index: 1 }));
    assert_eq!(plan.wgpu, DeviceQueue { family_index: 0, queue_index: 0 });
}
