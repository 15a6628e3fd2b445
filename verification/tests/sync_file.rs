use ash::vk::ExternalSemaphoreFeatureFlags as F;
use gpu_video::dmabuf_sync::{
    check_dmabuf_interop, export_sync_file_ioctl, export_sync_file_request, import_sync_file_ioctl,
    import_sync_file_request, ioc, missing_required_vulkan_device_extension,
    required_dmabuf_device_extensions, DmaBufAccess, SyncFile, SyncFileIoctl,
    EXTERNAL_SEMAPHORE_FEATURE_EXPORTABLE, EXTERNAL_SEMAPHORE_FEATURE_IMPORTABLE,
};
use gpu_video::nv12::DmaBufError;

#[test]
fn negative_raw_fd_is_ready() {
    assert!(matches!(SyncFile::from_owned_raw_fd(-1), SyncFile::Ready));
}

#[test]
fn owned_raw_fd_is_pending() {
    let fd = 3;

    assert!(matches!(SyncFile::from_owned_raw_fd(fd), SyncFile::Pending(_)));
}

#[test]
fn pending_sync_file_keeps_its_descriptor() {
    assert_eq!(SyncFile::from_owned_raw_fd(0), SyncFile::Pending(0));
    assert_eq!(SyncFile::from_owned_raw_fd(i32::MIN), SyncFile::Ready);
}

#[test]
fn ioctl_request_numbers_match_the_kernel_headers() {
    // DMA_BUF_IOCTL_EXPORT_SYNC_FILE = _IOWR('b', 2, struct dma_buf_export_sync_file)
    assert_eq!(export_sync_file_request(), 0xc008_6202);
    // DMA_BUF_IOCTL_IMPORT_SYNC_FILE = _IOW('b', 3, struct dma_buf_import_sync_file)
    assert_eq!(import_sync_file_request(), 0x4008_6203);
}

#[test]
fn ioc_places_each_field() {
    assert_eq!(ioc(0, 0, 0, 0), 0);
    assert_eq!(ioc(1, 0, 0, 0), 1 << 30);
    assert_eq!(ioc(0, 0x62, 0, 0), 0x6200);
    assert_eq!(ioc(0, 0, 7, 0), 7);
    assert_eq!(ioc(0, 0, 0, 0x3fff), 0x3fff << 16);
}

#[test]
fn access_flags_select_readers_or_writers() {
    assert_eq!(DmaBufAccess::Read.flags(), 1);
    assert_eq!(DmaBufAccess::Write.flags(), 2);
}

#[test]
fn export_ioctl_starts_without_descriptor() {
    assert_eq!(
        export_sync_file_ioctl(DmaBufAccess::Write),
        SyncFileIoctl { request: 0xc008_6202, flags: 2, fd: -1 }
    );
}

#[test]
fn ready_sync_file_is_not_imported() {
    assert_eq!(import_sync_file_ioctl(DmaBufAccess::Read, SyncFile::Ready), None);
    assert_eq!(
        import_sync_file_ioctl(DmaBufAccess::Read, SyncFile::Pending(9)),
        Some(SyncFileIoctl { request: 0x4008_6203, flags: 1, fd: 9 })
    );
}

#[test]
fn dmabuf_extension_names_match_ash() {
    let names = required_dmabuf_device_extensions();
    let expected = [
        ash::khr::external_memory_fd::NAME,
        ash::ext::external_memory_dma_buf::NAME,
        ash::ext::image_drm_format_modifier::NAME,
        ash::khr::external_semaphore::NAME,
        ash::khr::external_semaphore_fd::NAME,
    ];
    assert_eq!(names.len(), expected.len());
    for (name, ash_name) in names.iter().zip(expected.iter()) {
        assert_eq!(*name, ash_name.to_str().unwrap());
    }
}

fn all_dmabuf_extensions() -> Vec<String> {
    required_dmabuf_device_extensions().iter().map(|s| s.to_string()).collect()
}

#[test]
fn first_missing_extension_is_reported() {
    let mut available = all_dmabuf_extensions();
    assert_eq!(missing_required_vulkan_device_extension(&available), None);
    available.retain(|e| e != "VK_EXT_image_drm_format_modifier" && e != "VK_KHR_external_semaphore_fd");
    assert_eq!(
        missing_required_vulkan_device_extension(&available),
        Some("VK_EXT_image_drm_format_modifier")
    );
}

fn unsupported_message(result: Result<(), DmaBufError>) -> String {
    match result {
        Err(DmaBufError::UnsupportedDevice(m)) => m,
        other => panic!("expected an unsupported device, got {other:?}"),
    }
}

#[test]
fn interop_checks_run_in_order() {
    let both = EXTERNAL_SEMAPHORE_FEATURE_IMPORTABLE | EXTERNAL_SEMAPHORE_FEATURE_EXPORTABLE;
    let all = all_dmabuf_extensions();
    assert!(check_dmabuf_interop(None, true, &all, both).is_ok());
    assert_eq!(
        unsupported_message(check_dmabuf_interop(Some("TEXTURE_FORMAT_NV12".to_string()), false, &Vec::new(), 0)),
        "NV12 DMA-BUF interop requires wgpu features TEXTURE_FORMAT_NV12"
    );
    assert_eq!(
        unsupported_message(check_dmabuf_interop(None, false, &all, both)),
        "NV12 DMA-BUF interop requires a Vulkan wgpu device"
    );
    assert_eq!(
        unsupported_message(check_dmabuf_interop(None, true, &all[1..].to_vec(), both)),
        "NV12 DMA-BUF interop requires Vulkan device extension VK_KHR_external_memory_fd"
    );
    assert_eq!(
        unsupported_message(check_dmabuf_interop(None, true, &all, EXTERNAL_SEMAPHORE_FEATURE_IMPORTABLE)),
        "NV12 DMA-BUF interop requires importable/exportable Vulkan SYNC_FD semaphores"
    );
}

#[test]
fn semaphore_feature_bits_match_ash() {
    assert_eq!(EXTERNAL_SEMAPHORE_FEATURE_EXPORTABLE, F::EXPORTABLE.as_raw());
    assert_eq!(EXTERNAL_SEMAPHORE_FEATURE_IMPORTABLE, F::IMPORTABLE.as_raw());
}
