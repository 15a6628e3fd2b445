use ash::vk;
use std::sync::Arc;

use gpu_video::nv12::{
    find_export_memory_type, find_memory_type_index_for_properties, supports_nv12_modifier,
    validate_nv12_dmabuf_layout, DmaBufError, DmaBufObject, DmaBufPlane, Nv12DmaBufLayer,
    Nv12DmaBufMemory, VideoResolution, FORMAT_FEATURE_2_DISJOINT, IMAGE_CREATE_DISJOINT,
    MEMORY_PROPERTY_DEVICE_LOCAL,
};

fn object(size: u32, modifier: u64) -> DmaBufObject<Arc<i32>> {
    DmaBufObject { fd: Arc::new(7), size, modifier }
}

fn resolution(width: u32, height: u32) -> VideoResolution {
    VideoResolution { width, height }
}

fn nv12_layer(y_object: usize, uv_object: usize) -> Nv12DmaBufLayer {
    Nv12DmaBufLayer {
        planes: [
            DmaBufPlane { object_index: y_object, offset: 0, pitch: 64 },
            DmaBufPlane { object_index: uv_object, offset: 0, pitch: 64 },
        ],
    }
}

fn validate_layout(
    resolution: VideoResolution,
    objects: Vec<DmaBufObject<Arc<i32>>>,
    layer: Nv12DmaBufLayer,
) -> Result<Nv12DmaBufMemory<Arc<i32>>, DmaBufError> {
    validate_nv12_dmabuf_layout(resolution, objects, layer)
}

fn expect_err(result: Result<Nv12DmaBufMemory<Arc<i32>>, DmaBufError>, why: &str) -> DmaBufError {
    match result {
        Ok(_) => panic!("{why}"),
        Err(err) => err,
    }
}

fn assert_invalid_layout(err: DmaBufError, expected: &str) {
    let DmaBufError::InvalidLayout(message) = err else {
        panic!("unexpected error: {err:?}");
    };

    assert_eq!(message, expected);
}

#[test]
fn validate_nv12_layout_rejects_odd_dimensions() {
    let objects = vec![object(4096, 0)];
    let layer = Nv12DmaBufLayer {
        planes: [
            DmaBufPlane { object_index: 0, offset: 0, pitch: 64 },
            DmaBufPlane { object_index: 0, offset: 2048, pitch: 64 },
        ],
    };

    let err = expect_err(
        validate_layout(resolution(63, 64), objects, layer),
        "odd NV12 dimensions must be rejected",
    );
    assert_invalid_layout(err, "NV12 DMA-BUF dimensions must be even, got 63x64");
}

#[test]
fn validate_nv12_layout_rejects_mixed_modifiers() {
    let objects = vec![object(4096, 0), object(2048, 1)];
    let layer = nv12_layer(0, 1);

    let err = expect_err(
        validate_layout(resolution(64, 64), objects, layer),
        "one Vulkan image cannot import multiple modifiers",
    );
    assert_invalid_layout(err, "NV12 DMA-BUF objects must share a single DRM modifier");
}

#[test]
fn validate_nv12_layout_rejects_unused_objects() {
    let objects = vec![object(4096, 0), object(4096, 0)];
    let layer = nv12_layer(0, 0);

    let err = expect_err(
        validate_layout(resolution(64, 64), objects, layer),
        "disjoint import needs unique plane objects",
    );
    assert_invalid_layout(
        err,
        "single-object NV12 DMA-BUF uses object 0, but descriptor has 2 objects",
    );
}

#[test]
fn validate_nv12_layout_canonicalizes_disjoint_plane_objects() {
    let objects = vec![object(4096, 0), object(4096, 0)];
    let originals: Vec<Arc<i32>> = objects.iter().map(|o| o.fd.clone()).collect();
    let memory = match validate_layout(resolution(64, 64), objects, nv12_layer(1, 0)) {
        Ok(memory) => memory,
        Err(err) => panic!("disjoint NV12 planes may arrive in either object order: {err:?}"),
    };

    let Nv12DmaBufMemory::Disjoint { objects: canonical_objects, .. } = memory else {
        panic!("expected disjoint NV12 memory");
    };

    assert!(Arc::ptr_eq(&canonical_objects[0].fd, &originals[1]));
    assert!(Arc::ptr_eq(&canonical_objects[1].fd, &originals[0]));
}

#[test]
fn validate_nv12_layout_rejects_zero_size() {
    let err = expect_err(
        validate_layout(resolution(0, 64), vec![object(4096, 0)], nv12_layer(0, 0)),
        "empty frames must be rejected",
    );
    assert_invalid_layout(err, "NV12 DMA-BUF has invalid size 0x64");
}

#[test]
fn validate_nv12_layout_rejects_too_many_objects() {
    let objects = vec![object(4096, 0), object(4096, 0), object(4096, 0)];
    let err = expect_err(
        validate_layout(resolution(64, 64), objects, nv12_layer(0, 1)),
        "three objects are too many",
    );
    assert_invalid_layout(err, "NV12 DMA-BUF object count 3 is outside supported limit 1..=2");
}

#[test]
fn validate_nv12_layout_rejects_missing_object() {
    let err = expect_err(
        validate_layout(resolution(64, 64), vec![object(8192, 0)], nv12_layer(0, 1)),
        "a plane cannot name a missing object",
    );
    assert_invalid_layout(
        err,
        "NV12 DMA-BUF UV plane references object 1, but only 1 objects exist",
    );
}

#[test]
fn validate_nv12_layout_rejects_small_pitch() {
    let layer = Nv12DmaBufLayer {
        planes: [
            DmaBufPlane { object_index: 0, offset: 0, pitch: 32 },
            DmaBufPlane { object_index: 0, offset: 4096, pitch: 64 },
        ],
    };
    let err = expect_err(
        validate_layout(resolution(64, 64), vec![object(8192, 0)], layer),
        "the pitch must cover a row",
    );
    assert_invalid_layout(err, "NV12 DMA-BUF Y plane pitch 32 is smaller than required width 64");
}

#[test]
fn validate_nv12_layout_rejects_plane_past_object_end() {
    let layer = Nv12DmaBufLayer {
        planes: [
            DmaBufPlane { object_index: 0, offset: 0, pitch: 64 },
            DmaBufPlane { object_index: 0, offset: 4096, pitch: 64 },
        ],
    };
    let err = expect_err(
        validate_layout(resolution(64, 64), vec![object(5000, 0)], layer),
        "the UV plane runs past the object",
    );
    assert_invalid_layout(err, "NV12 DMA-BUF UV plane range 6144 exceeds object 0 size 5000");
}

#[test]
fn validate_nv12_layout_accepts_single_object() {
    let layer = Nv12DmaBufLayer {
        planes: [
            DmaBufPlane { object_index: 0, offset: 0, pitch: 64 },
            DmaBufPlane { object_index: 0, offset: 4096, pitch: 64 },
        ],
    };
    let memory = match validate_layout(resolution(64, 64), vec![object(6144, 5)], layer) {
        Ok(memory) => memory,
        Err(err) => panic!("a packed NV12 layout is valid: {err:?}"),
    };
    assert_eq!(memory.modifier(), 5);
    assert_eq!(memory.image_flags() & IMAGE_CREATE_DISJOINT, 0);
    assert_eq!(memory.required_import_features() & FORMAT_FEATURE_2_DISJOINT, 0);
    let planes = memory.planes();
    assert_eq!(planes[1], DmaBufPlane { object_index: 0, offset: 4096, pitch: 64 });
    let Nv12DmaBufMemory::Single { .. } = memory else {
        panic!("expected single-object memory");
    };
}

#[test]
fn validate_nv12_layout_disjoint_memory_is_flagged_disjoint() {
    let memory = match validate_layout(
        resolution(64, 64),
        vec![object(4096, 0), object(4096, 0)],
        nv12_layer(1, 0),
    ) {
        Ok(memory) => memory,
        Err(err) => panic!("valid disjoint layout: {err:?}"),
    };
    assert_ne!(memory.image_flags() & IMAGE_CREATE_DISJOINT, 0);
    assert_ne!(memory.required_import_features() & FORMAT_FEATURE_2_DISJOINT, 0);
    let planes = memory.planes();
    assert_eq!(planes[0].object_index, 0);
    assert_eq!(planes[1].object_index, 1);
}

#[test]
fn nv12_modifier_needs_two_planes_and_all_features() {
    assert!(supports_nv12_modifier(2, 0b111, 0b101));
    assert!(!supports_nv12_modifier(1, 0b111, 0b101));
    assert!(!supports_nv12_modifier(2, 0b001, 0b101));
}

#[test]
fn memory_type_search_takes_first_match() {
    let flags = vec![0, MEMORY_PROPERTY_DEVICE_LOCAL, MEMORY_PROPERTY_DEVICE_LOCAL | 0x2];
    assert_eq!(
        find_memory_type_index_for_properties(&flags, 0b110, MEMORY_PROPERTY_DEVICE_LOCAL),
        Some(1)
    );
    assert_eq!(
        find_memory_type_index_for_properties(&flags, 0b100, MEMORY_PROPERTY_DEVICE_LOCAL),
        Some(2)
    );
    assert_eq!(find_memory_type_index_for_properties(&flags, 0b001, MEMORY_PROPERTY_DEVICE_LOCAL), None);
}

#[test]
fn export_memory_type_prefers_device_local() {
    let flags = vec![0, MEMORY_PROPERTY_DEVICE_LOCAL];
    assert_eq!(find_export_memory_type(&flags, 0b11), Some(1));
    assert_eq!(find_export_memory_type(&flags, 0b01), Some(0));
    assert_eq!(find_export_memory_type(&flags, 0), None);
}

#[test]
fn vulkan_flag_values_match_ash() {
    assert_eq!(IMAGE_CREATE_DISJOINT, vk::ImageCreateFlags::DISJOINT.as_raw());
    assert_eq!(FORMAT_FEATURE_2_DISJOINT, vk::FormatFeatureFlags2::DISJOINT.as_raw());
    assert_eq!(MEMORY_PROPERTY_DEVICE_LOCAL, vk::MemoryPropertyFlags::DEVICE_LOCAL.as_raw());
}
