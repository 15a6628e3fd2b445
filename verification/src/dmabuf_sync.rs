//! Implicit DMA-BUF synchronization through sync files: the ioctl request numbers, the access
//! flags, and what a returned sync-file descriptor means.
use vstd::prelude::*;

use crate::adapter::{has_extension, names_contain};
use crate::nv12::DmaBufError;
use crate::text::{owned, push_str};

verus! {

/// The ioctl "type" byte of the DMA-BUF ioctls (`'b'`).
pub const DMA_BUF_BASE: u8 = 0x62;

/// Access flag asking for the fences of readers.
pub const DMA_BUF_SYNC_READ: u32 = 1;

/// Access flag asking for the fences of writers.
pub const DMA_BUF_SYNC_WRITE: u32 = 2;

pub const IOC_NRBITS: u64 = 8;

pub const IOC_TYPEBITS: u64 = 8;

pub const IOC_SIZEBITS: u64 = 14;

pub const IOC_NRSHIFT: u64 = 0;

pub const IOC_TYPESHIFT: u64 = 8;

pub const IOC_SIZESHIFT: u64 = 16;

pub const IOC_DIRSHIFT: u64 = 30;

/// Direction bit: userspace writes the argument.
pub const IOC_WRITE: u64 = 1;

/// Direction bit: userspace reads the argument.
pub const IOC_READ: u64 = 2;

/// Size in bytes of the argument of both sync-file ioctls (a `u32` flags word and an `i32` fd).
pub const SYNC_FILE_ARG_SIZE: u64 = 8;

/// Which side of a buffer a sync file is exported for or imported into.
#[derive(Debug, Clone, Copy, PartialEq, Eq, Structural)]
pub enum DmaBufAccess {
    Read,
    Write,
}

pub open spec fn spec_access_flags(access: DmaBufAccess) -> u32 {
    match access {
        DmaBufAccess::Read => DMA_BUF_SYNC_READ,
        DmaBufAccess::Write => DMA_BUF_SYNC_WRITE,
    }
}

/// Reading takes the kernel's read flag (1) and writing its write flag (2); the two differ.
pub proof fn law_access_flags_are_the_kernel_flags(a: DmaBufAccess, b: DmaBufAccess)
    ensures
        spec_access_flags(DmaBufAccess::Read) == 1,
        spec_access_flags(DmaBufAccess::Write) == 2,
        spec_access_flags(a) == spec_access_flags(b) ==> a == b,
{
}

impl DmaBufAccess {
    /// The flag word the kernel takes for this access.
    pub fn flags(self) -> (r: u32)
        ensures
            r == spec_access_flags(self),
            self == DmaBufAccess::Read ==> r == 1,
            self == DmaBufAccess::Write ==> r == 2,
    {
        match self {
            DmaBufAccess::Read => DMA_BUF_SYNC_READ,
            DmaBufAccess::Write => DMA_BUF_SYNC_WRITE,
        }
    }
}

/// The Linux `_IOC` encoding of an ioctl request number.
pub open spec fn spec_ioc(dir: u64, kind: u8, nr: u8, size: u64) -> u64 {
    (dir << 30u64) | ((kind as u64) << 8u64) | ((nr as u64) << 0u64) | (size << 16u64)
}

/// Encodes an ioctl request number from its direction, type, number and argument size. Where
/// the direction fits its two bits and the size its fourteen, the fields do not overlap and the
/// request is their weighted sum.
pub fn ioc(dir: u64, kind: u8, nr: u8, size: u64) -> (r: u64)
    ensures
        r == spec_ioc(dir, kind, nr, size),
        dir < 4 && size < 0x4000 ==> r == dir * 0x4000_0000 + size * 0x1_0000 + kind * 0x100 + nr,
{
    let r = (dir << IOC_DIRSHIFT) | ((kind as u64) << IOC_TYPESHIFT) | ((nr as u64)
        << IOC_NRSHIFT) | (size << IOC_SIZESHIFT);
    proof {
        let k = kind as u64;
        let n = nr as u64;
        assert(dir < 4 && size < 0x4000 ==> (dir << 30u64) | (k << 8u64) | (n << 0u64) | (size
            << 16u64) == dir * 0x4000_0000 + size * 0x1_0000 + k * 0x100 + n) by (bit_vector)
            requires
                k < 256,
                n < 256,
        ;
    }
    r
}

/// `DMA_BUF_IOCTL_EXPORT_SYNC_FILE`: read-write, type `'b'`, number 2.
pub fn export_sync_file_request() -> (r: u64)
    ensures
        r == spec_ioc(IOC_READ | IOC_WRITE, DMA_BUF_BASE, 2, SYNC_FILE_ARG_SIZE),
        r == 0xc008_6202,
{
    let r = ioc(IOC_READ | IOC_WRITE, DMA_BUF_BASE, 2, SYNC_FILE_ARG_SIZE);
    assert((2u64 | 1u64) == 3u64) by (bit_vector);
    r
}

/// `DMA_BUF_IOCTL_IMPORT_SYNC_FILE`: write, type `'b'`, number 3.
pub fn import_sync_file_request() -> (r: u64)
    ensures
        r == spec_ioc(IOC_WRITE, DMA_BUF_BASE, 3, SYNC_FILE_ARG_SIZE),
        r == 0x4008_6203,
{
    ioc(IOC_WRITE, DMA_BUF_BASE, 3, SYNC_FILE_ARG_SIZE)
}

/// What a buffer's fences came out as: nothing to wait for, or a sync file to wait on.
#[derive(Debug, Clone, Copy, PartialEq, Eq, Structural)]
pub enum SyncFile {
    Ready,
    Pending(i32),
}

impl SyncFile {
    /// Takes ownership of a descriptor the kernel returned; a negative one means that every
    /// fence had already signaled.
    pub fn from_owned_raw_fd(fd: i32) -> (r: Self)
        ensures
            fd < 0 ==> r == SyncFile::Ready,
            fd >= 0 ==> r == SyncFile::Pending(fd),
    {
        if fd < 0 {
            SyncFile::Ready
        } else {
            SyncFile::Pending(fd)
        }
    }
}

/// The argument of one sync-file ioctl.
#[derive(Debug, Clone, Copy, PartialEq, Eq, Structural)]
pub struct SyncFileIoctl {
    pub request: u64,
    pub flags: u32,
    pub fd: i32,
}

/// The export ioctl for `access`; the kernel fills in `fd`, which starts out as -1.
pub fn export_sync_file_ioctl(access: DmaBufAccess) -> (r: SyncFileIoctl)
    ensures
        r.request == 0xc008_6202,
        r.flags == spec_access_flags(access),
        r.fd == -1,
{
    SyncFileIoctl { request: export_sync_file_request(), flags: access.flags(), fd: -1 }
}

/// The import ioctl for `sync_file`, or `None` when it is ready and nothing has to be
/// imported.
pub fn import_sync_file_ioctl(access: DmaBufAccess, sync_file: SyncFile) -> (r: Option<
    SyncFileIoctl,
>)
    ensures
        sync_file == SyncFile::Ready ==> r is None,
        sync_file matches SyncFile::Pending(fd) ==> r == Some(
            SyncFileIoctl { request: 0x4008_6203, flags: spec_access_flags(access), fd },
        ),
{
    match sync_file {
        SyncFile::Ready => None,
        SyncFile::Pending(fd) => Some(
            SyncFileIoctl { request: import_sync_file_request(), flags: access.flags(), fd },
        ),
    }
}

/// Device extensions that importing and exporting DMA-BUFs with semaphores needs.
pub fn required_dmabuf_device_extensions() -> (r: Vec<&'static str>)
    ensures
        r@.len() == 5,
        r@[0]@ == "VK_KHR_external_memory_fd"@,
        r@[1]@ == "VK_EXT_external_memory_dma_buf"@,
        r@[2]@ == "VK_EXT_image_drm_format_modifier"@,
        r@[3]@ == "VK_KHR_external_semaphore"@,
        r@[4]@ == "VK_KHR_external_semaphore_fd"@,
{
    vec![
        "VK_KHR_external_memory_fd",
        "VK_EXT_external_memory_dma_buf",
        "VK_EXT_image_drm_format_modifier",
        "VK_KHR_external_semaphore",
        "VK_KHR_external_semaphore_fd",
    ]
}

/// The first required DMA-BUF extension that the device does not list, if any.
pub fn missing_required_vulkan_device_extension(available: &Vec<String>) -> (r: Option<
    &'static str,
>)
    ensures
        ({
            let req = required_dmabuf_extension_names();
            match r {
                None => forall|i: int| 0 <= i < req.len() ==> names_contain(available@, #[trigger] req[i]),
                Some(name) => exists|i: int|
                    0 <= i < req.len() && name@ == req[i] && !names_contain(available@, req[i])
                        && forall|j: int| 0 <= j < i ==> names_contain(available@, #[trigger] req[j]),
            }
        }),
{
    let required = required_dmabuf_device_extensions();
    let ghost req = required_dmabuf_extension_names();
    assert(forall|k: int| 0 <= k < 5 ==> (#[trigger] required@[k])@ == req[k]);
    let mut i: usize = 0;
    while i < required.len()
        invariant
            i <= required@.len(),
            required@.len() == 5,
            req == required_dmabuf_extension_names(),
            forall|k: int| 0 <= k < 5 ==> (#[trigger] required@[k])@ == req[k],
            forall|j: int| 0 <= j < i ==> names_contain(available@, #[trigger] req[j]),
        decreases required.len() - i,
    {
        let name = required[i];
        if !has_extension(available, name) {
            return Some(name);
        }
        i = i + 1;
    }
    None
}

/// The names of [`required_dmabuf_device_extensions`], in order.
pub open spec fn required_dmabuf_extension_names() -> Seq<Seq<char>> {
    seq![
        "VK_KHR_external_memory_fd"@,
        "VK_EXT_external_memory_dma_buf"@,
        "VK_EXT_image_drm_format_modifier"@,
        "VK_KHR_external_semaphore"@,
        "VK_KHR_external_semaphore_fd"@,
    ]
}


/// `VK_EXTERNAL_SEMAPHORE_FEATURE_EXPORTABLE_BIT`.
pub const EXTERNAL_SEMAPHORE_FEATURE_EXPORTABLE: u32 = 0x1;

/// `VK_EXTERNAL_SEMAPHORE_FEATURE_IMPORTABLE_BIT`.
pub const EXTERNAL_SEMAPHORE_FEATURE_IMPORTABLE: u32 = 0x2;

/// What makes a device unfit for NV12 DMA-BUF interop, checked in this order: missing wgpu
/// features (given as their debug text), a device that is not a Vulkan one, a missing required
/// device extension, and sync-file semaphores that cannot be both imported and exported.
pub open spec fn interop_problem(
    missing_wgpu_features: Option<Seq<char>>,
    is_vulkan: bool,
    enabled_extensions: Seq<String>,
    sync_fd_semaphore_features: u32,
) -> Option<Seq<char>> {
    let req = required_dmabuf_extension_names();
    let both = (EXTERNAL_SEMAPHORE_FEATURE_IMPORTABLE | EXTERNAL_SEMAPHORE_FEATURE_EXPORTABLE);
    match missing_wgpu_features {
        Some(m) => Some("NV12 DMA-BUF interop requires wgpu features "@ + m),
        None => if !is_vulkan {
            Some("NV12 DMA-BUF interop requires a Vulkan wgpu device"@)
        } else if exists|i: int| 0 <= i < req.len() && !names_contain(enabled_extensions, #[trigger] req[i]) {
            let i = choose|i: int|
                0 <= i < req.len() && !names_contain(enabled_extensions, #[trigger] req[i])
                    && forall|j: int| 0 <= j < i ==> names_contain(enabled_extensions, #[trigger] req[j]);
            Some("NV12 DMA-BUF interop requires Vulkan device extension "@ + req[i])
        } else if sync_fd_semaphore_features & both != both {
            Some("NV12 DMA-BUF interop requires importable/exportable Vulkan SYNC_FD semaphores"@)
        } else {
            None
        },
    }
}

/// Checks that a device can share NV12 DMA-BUFs, as [`interop_problem`] says; every refusal is
/// an unsupported device.
pub fn check_dmabuf_interop(
    missing_wgpu_features: Option<String>,
    is_vulkan: bool,
    enabled_extensions: &Vec<String>,
    sync_fd_semaphore_features: u32,
) -> (r: Result<(), DmaBufError>)
    ensures
        match interop_problem(
            match missing_wgpu_features {
                Some(m) => Some(m@),
                None => None,
            },
            is_vulkan,
            enabled_extensions@,
            sync_fd_semaphore_features,
        ) {
            Some(m) => r matches Err(DmaBufError::UnsupportedDevice(msg)) && msg@ == m,
            None => r is Ok,
        },
{
    if let Some(m) = missing_wgpu_features {
        return Err(
            DmaBufError::UnsupportedDevice(
                push_str(owned("NV12 DMA-BUF interop requires wgpu features "), m.as_str()),
            ),
        );
    }
    if !is_vulkan {
        return Err(
            DmaBufError::UnsupportedDevice(
                owned("NV12 DMA-BUF interop requires a Vulkan wgpu device"),
            ),
        );
    }
    let ghost req = required_dmabuf_extension_names();
    match missing_required_vulkan_device_extension(enabled_extensions) {
        Some(name) => {
            proof {
                let w = choose|i: int|
                    0 <= i < req.len() && name@ == req[i] && !names_contain(enabled_extensions@, req[i])
                        && forall|j: int| 0 <= j < i ==> names_contain(enabled_extensions@, #[trigger] req[j]);
                let c = choose|i: int|
                    0 <= i < req.len() && !names_contain(enabled_extensions@, #[trigger] req[i])
                        && forall|j: int| 0 <= j < i ==> names_contain(enabled_extensions@, #[trigger] req[j]);
                assert(0 <= w < req.len() && !names_contain(enabled_extensions@, req[w]));
                if c < w {
                    assert(names_contain(enabled_extensions@, req[c]));
                } else if w < c {
                    assert(names_contain(enabled_extensions@, req[w]));
                }
                assert(c == w);
            }
            return Err(
                DmaBufError::UnsupportedDevice(
                    push_str(
                        owned("NV12 DMA-BUF interop requires Vulkan device extension "),
                        name,
                    ),
                ),
            );
        },
        None => {},
    }
    let both = EXTERNAL_SEMAPHORE_FEATURE_IMPORTABLE | EXTERNAL_SEMAPHORE_FEATURE_EXPORTABLE;
    if sync_fd_semaphore_features & both != both {
        return Err(
            DmaBufError::UnsupportedDevice(
                owned(
                    "NV12 DMA-BUF interop requires importable/exportable Vulkan SYNC_FD semaphores",
                ),
            ),
        );
    }
    Ok(())
}


/// The fields of a request number come back out of it: the direction from the top two bits,
/// the argument size from the fourteen below, then the type byte and the number byte.
pub proof fn law_ioc_fields_round_trip(dir: u64, kind: u8, nr: u8, size: u64)
    requires
        dir < 4,
        size < 0x4000,
    ensures
        spec_ioc(dir, kind, nr, size) >> 30u64 == dir,
        (spec_ioc(dir, kind, nr, size) >> 16u64) & 0x3fff == size,
        (spec_ioc(dir, kind, nr, size) >> 8u64) & 0xff == kind as u64,
        spec_ioc(dir, kind, nr, size) & 0xff == nr as u64,
{
    let k = kind as u64;
    let n = nr as u64;
    assert(((dir << 30u64) | (k << 8u64) | (n << 0u64) | (size << 16u64)) >> 30u64 == dir
        && (((dir << 30u64) | (k << 8u64) | (n << 0u64) | (size << 16u64)) >> 16u64) & 0x3fff == size
        && (((dir << 30u64) | (k << 8u64) | (n << 0u64) | (size << 16u64)) >> 8u64) & 0xff == k
        && ((dir << 30u64) | (k << 8u64) | (n << 0u64) | (size << 16u64)) & 0xff == n) by (bit_vector)
        requires
            dir < 4,
            size < 0x4000,
            k < 256,
            n < 256,
    ;
}

} // verus!
