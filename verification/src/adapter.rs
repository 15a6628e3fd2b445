use vstd::prelude::*;

use crate::capabilities::{DecodeCapabilities, EncodeCapabilities};
use crate::text::{decimal, owned, push_decimal, push_str};

verus! {

/// Describes a video adapter; used to pick one.
#[derive(Debug, Clone, Copy, PartialEq, Eq, Structural)]
pub struct VideoAdapterDescriptor {
    pub supports_decoding: bool,
    pub supports_encoding: bool,
}

impl Default for VideoAdapterDescriptor {
    fn default() -> (r: Self)
        ensures
            r.supports_decoding && r.supports_encoding,
    {
        VideoAdapterDescriptor { supports_decoding: true, supports_encoding: true }
    }
}

#[derive(Debug, Clone, Copy, PartialEq, Eq, Hash, Structural)]
pub enum DeviceType {
    Other,
    IntegratedGpu,
    DiscreteGpu,
    VirtualGpu,
    Cpu,
}

/// `VkPhysicalDeviceType` values.
pub const PHYSICAL_DEVICE_TYPE_OTHER: i32 = 0;
pub const PHYSICAL_DEVICE_TYPE_INTEGRATED_GPU: i32 = 1;
pub const PHYSICAL_DEVICE_TYPE_DISCRETE_GPU: i32 = 2;
pub const PHYSICAL_DEVICE_TYPE_VIRTUAL_GPU: i32 = 3;
pub const PHYSICAL_DEVICE_TYPE_CPU: i32 = 4;

pub open spec fn spec_device_type_from_vk(raw: i32) -> DeviceType {
    if raw == PHYSICAL_DEVICE_TYPE_INTEGRATED_GPU {
        DeviceType::IntegratedGpu
    } else if raw == PHYSICAL_DEVICE_TYPE_DISCRETE_GPU {
        DeviceType::DiscreteGpu
    } else if raw == PHYSICAL_DEVICE_TYPE_VIRTUAL_GPU {
        DeviceType::VirtualGpu
    } else if raw == PHYSICAL_DEVICE_TYPE_CPU {
        DeviceType::Cpu
    } else {
        DeviceType::Other
    }
}

/// Vulkan's physical device types 1 to 4 are integrated, discrete, virtual and CPU devices, each
/// read as its own device type; every other value (0, "other", included) is read as other.
pub proof fn law_device_types_follow_vulkan(raw: i32, other: i32)
    ensures
        spec_device_type_from_vk(1) == DeviceType::IntegratedGpu,
        spec_device_type_from_vk(2) == DeviceType::DiscreteGpu,
        spec_device_type_from_vk(3) == DeviceType::VirtualGpu,
        spec_device_type_from_vk(4) == DeviceType::Cpu,
        (raw < 1 || raw > 4) ==> spec_device_type_from_vk(raw) == DeviceType::Other,
        (1 <= raw <= 4 && spec_device_type_from_vk(raw) == spec_device_type_from_vk(other)) ==> raw
            == other,
{
}

impl DeviceType {
    /// The device type of a Vulkan physical device type; unknown values are "other".
    pub fn from_vk(raw: i32) -> (r: Self)
        ensures
            r == spec_device_type_from_vk(raw),
            raw == 1 ==> r == DeviceType::IntegratedGpu,
            raw == 2 ==> r == DeviceType::DiscreteGpu,
            raw == 3 ==> r == DeviceType::VirtualGpu,
            raw == 4 ==> r == DeviceType::Cpu,
            (raw < 1 || raw > 4) ==> r == DeviceType::Other,
    {
        if raw == PHYSICAL_DEVICE_TYPE_INTEGRATED_GPU {
            DeviceType::IntegratedGpu
        } else if raw == PHYSICAL_DEVICE_TYPE_DISCRETE_GPU {
            DeviceType::DiscreteGpu
        } else if raw == PHYSICAL_DEVICE_TYPE_VIRTUAL_GPU {
            DeviceType::VirtualGpu
        } else if raw == PHYSICAL_DEVICE_TYPE_CPU {
            DeviceType::Cpu
        } else {
            DeviceType::Other
        }
    }
}

/// Information about an adapter and its video capabilities.
pub struct VideoAdapterInfo {
    pub name: String,
    pub driver_name: String,
    pub driver_info: String,
    pub device: String,
    pub device_type: DeviceType,
    pub vendor: String,
    pub api_version: String,
    pub supports_decoding: bool,
    pub supports_encoding: bool,
    pub decode_capabilities: DecodeCapabilities,
    pub encode_capabilities: EncodeCapabilities,
}

/// `VK_API_VERSION_MAJOR`: bits 22..29 of a packed version.
pub open spec fn spec_api_version_major(version: u32) -> u32 {
    (version >> 22u32) & 0x7fu32
}

/// `VK_API_VERSION_MINOR`: bits 12..22 of a packed version.
pub open spec fn spec_api_version_minor(version: u32) -> u32 {
    (version >> 12u32) & 0x3ffu32
}

/// `VK_API_VERSION_PATCH`: bits 0..12 of a packed version.
pub open spec fn spec_api_version_patch(version: u32) -> u32 {
    version & 0xfffu32
}

/// `ash::vk::api_version_major` shifts the packed version right by 22 and keeps seven bits.
pub assume_specification[ash::vk::api_version_major](version: u32) -> (r: u32)
    ensures
        r == spec_api_version_major(version),
;

/// `ash::vk::api_version_minor` shifts the packed version right by 12 and keeps ten bits.
pub assume_specification[ash::vk::api_version_minor](version: u32) -> (r: u32)
    ensures
        r == spec_api_version_minor(version),
;

/// `ash::vk::api_version_patch` keeps the low twelve bits of the packed version.
pub assume_specification[ash::vk::api_version_patch](version: u32) -> (r: u32)
    ensures
        r == spec_api_version_patch(version),
;

/// `major.minor.patch` of a packed Vulkan version.
pub open spec fn spec_api_version_string(version: u32) -> Seq<char> {
    decimal(spec_api_version_major(version) as nat) + "."@ + decimal(
        spec_api_version_minor(version) as nat,
    ) + "."@ + decimal(spec_api_version_patch(version) as nat)
}

pub fn api_version_string(version: u32) -> (r: String)
    ensures
        r@ == spec_api_version_string(version),
{
    let major = ash::vk::api_version_major(version);
    let minor = ash::vk::api_version_minor(version);
    let patch = ash::vk::api_version_patch(version);
    let s = push_decimal(String::new(), major as u64);
    let s = push_str(s, ".");
    let s = push_decimal(s, minor as u64);
    let s = push_str(s, ".");
    let s = push_decimal(s, patch as u64);
    proof {
        assert(Seq::<char>::empty() + decimal(major as nat) =~= decimal(major as nat));
    }
    s
}

/// `VK_API_VERSION_1_2`
pub const API_VERSION_1_2: u32 = 4202496;

/// The driver name and info to report: what the driver says on Vulkan 1.2 devices (missing
/// values read as "unknown" and empty), "unknown" and empty before 1.2.
pub fn driver_strings(api_version: u32, driver_name: Option<String>, driver_info: Option<String>) -> (r: (String, String))
    ensures
        api_version >= API_VERSION_1_2 ==> r.0@ == match driver_name {
            Some(n) => n@,
            None => "unknown"@,
        } && r.1@ == match driver_info {
            Some(i) => i@,
            None => ""@,
        },
        api_version < API_VERSION_1_2 ==> r.0@ == "unknown"@ && r.1@ == ""@,
{
    if api_version >= API_VERSION_1_2 {
        let name = match driver_name {
            Some(n) => n,
            None => owned("unknown"),
        };
        let info = match driver_info {
            Some(i) => i,
            None => owned(""),
        };
        (name, info)
    } else {
        (owned("unknown"), owned(""))
    }
}

/// What the adapter description reads of a Vulkan physical device.
pub struct VulkanDeviceSummary {
    pub name: String,
    pub driver_name: String,
    pub driver_info: String,
    pub device_type: i32,
    pub device_id: u32,
    pub vendor_id: u32,
    pub api_version: u32,
    pub supports_decoding: bool,
    pub supports_encoding: bool,
    pub decode_capabilities: DecodeCapabilities,
    pub encode_capabilities: EncodeCapabilities,
}

/// The user-facing description of a Vulkan adapter: ids in decimal, the API version as
/// `major.minor.patch`, the device type mapped from the Vulkan one.
pub fn build_vulkan_adapter_info(summary: VulkanDeviceSummary) -> (r: VideoAdapterInfo)
    ensures
        r.name@ == summary.name@,
        r.driver_name@ == summary.driver_name@,
        r.driver_info@ == summary.driver_info@,
        r.device@ == decimal(summary.device_id as nat),
        r.vendor@ == decimal(summary.vendor_id as nat),
        r.device_type == spec_device_type_from_vk(summary.device_type),
        r.api_version@ == spec_api_version_string(summary.api_version),
        r.supports_decoding == summary.supports_decoding,
        r.supports_encoding == summary.supports_encoding,
        r.decode_capabilities == summary.decode_capabilities,
        r.encode_capabilities == summary.encode_capabilities,
{
    let device = push_decimal(String::new(), summary.device_id as u64);
    let vendor = push_decimal(String::new(), summary.vendor_id as u64);
    proof {
        assert(Seq::<char>::empty() + decimal(summary.device_id as nat) =~= decimal(summary.device_id as nat));
        assert(Seq::<char>::empty() + decimal(summary.vendor_id as nat) =~= decimal(summary.vendor_id as nat));
    }
    VideoAdapterInfo {
        name: summary.name,
        driver_name: summary.driver_name,
        driver_info: summary.driver_info,
        device,
        device_type: DeviceType::from_vk(summary.device_type),
        vendor,
        api_version: api_version_string(summary.api_version),
        supports_decoding: summary.supports_decoding,
        supports_encoding: summary.supports_encoding,
        decode_capabilities: summary.decode_capabilities,
        encode_capabilities: summary.encode_capabilities,
    }
}

/// `VkQueueFlags` values.
pub const QUEUE_GRAPHICS: u32 = 0x1;
pub const QUEUE_COMPUTE: u32 = 0x2;
pub const QUEUE_TRANSFER: u32 = 0x4;
pub const QUEUE_VIDEO_DECODE: u32 = 0x20;
pub const QUEUE_VIDEO_ENCODE: u32 = 0x40;

/// `VkVideoCodecOperationFlagsKHR` values.
pub const CODEC_OPERATION_DECODE_H264: u32 = 0x1;
pub const CODEC_OPERATION_DECODE_H265: u32 = 0x2;
pub const CODEC_OPERATION_ENCODE_H264: u32 = 0x10000;
pub const CODEC_OPERATION_ENCODE_H265: u32 = 0x20000;

/// What queue selection reads of one queue family.
#[derive(Debug, Clone, Copy, PartialEq, Eq, Structural)]
pub struct QueueFamilyInfo {
    pub queue_flags: u32,
    pub queue_count: u32,
    /// The video codec operations of the family, when it reports video properties.
    pub video_codec_operations: Option<u32>,
}

pub open spec fn has_flags(flags: u32, required: u32) -> bool {
    flags & required == required
}

pub open spec fn is_dedicated_transfer(f: QueueFamilyInfo) -> bool {
    has_flags(f.queue_flags, QUEUE_TRANSFER) && f.queue_flags & QUEUE_GRAPHICS == 0
}

pub open spec fn is_graphics_transfer_compute(f: QueueFamilyInfo) -> bool {
    has_flags(f.queue_flags, QUEUE_GRAPHICS | QUEUE_TRANSFER | QUEUE_COMPUTE)
}

pub open spec fn is_dedicated_compute(f: QueueFamilyInfo) -> bool {
    has_flags(f.queue_flags, QUEUE_COMPUTE) && f.queue_flags & QUEUE_GRAPHICS == 0
}

/// A compute family that may be shared: any compute family other than `gtc`, or `gtc` itself
/// when it has a second queue for this library.
pub open spec fn is_fallback_compute(f: QueueFamilyInfo, i: int, gtc: int) -> bool {
    has_flags(f.queue_flags, QUEUE_COMPUTE) && (i != gtc || f.queue_count >= 2)
}

pub open spec fn is_video_family(f: QueueFamilyInfo, queue_flag: u32, ops: u32) -> bool {
    has_flags(f.queue_flags, queue_flag) && (f.video_codec_operations matches Some(v) && has_flags(
        v,
        ops,
    ))
}

/// The first family from `i` on that satisfies `p`.
pub open spec fn first_from(
    fams: Seq<QueueFamilyInfo>,
    p: spec_fn(QueueFamilyInfo, int) -> bool,
    i: int,
) -> Option<int>
    decreases fams.len() - i,
{
    if i < 0 || i >= fams.len() {
        None
    } else if p(fams[i], i) {
        Some(i)
    } else {
        first_from(fams, p, i + 1)
    }
}

/// A found family lies within the searched range, satisfies the predicate, and no family
/// before it does.
pub proof fn lemma_first_from(fams: Seq<QueueFamilyInfo>, p: spec_fn(QueueFamilyInfo, int) -> bool, j: int)
    requires
        0 <= j,
    ensures
        first_from(fams, p, j) matches Some(i) ==> j <= i < fams.len() && p(fams[i], i) && forall|k: int|
            j <= k < i ==> !p(fams[k], k),
        first_from(fams, p, j) is None ==> forall|k: int| j <= k < fams.len() ==> !p(fams[k], k),
    decreases fams.len() - j,
{
    if j < fams.len() && !p(fams[j], j) {
        lemma_first_from(fams, p, j + 1);
    }
}

/// Which kind of family a search looks for.
#[derive(Debug, Clone, Copy, PartialEq, Eq, Structural)]
pub enum FamilyKind {
    DedicatedTransfer,
    GraphicsTransferCompute,
    DedicatedCompute,
    FallbackCompute { graphics_transfer_compute: usize },
    Video { queue_flag: u32, operations: u32 },
}

pub open spec fn family_kind_pred(kind: FamilyKind) -> spec_fn(QueueFamilyInfo, int) -> bool {
    |f: QueueFamilyInfo, i: int|
        match kind {
            FamilyKind::DedicatedTransfer => is_dedicated_transfer(f),
            FamilyKind::GraphicsTransferCompute => is_graphics_transfer_compute(f),
            FamilyKind::DedicatedCompute => is_dedicated_compute(f),
            FamilyKind::FallbackCompute { graphics_transfer_compute } => is_fallback_compute(
                f,
                i,
                graphics_transfer_compute as int,
            ),
            FamilyKind::Video { queue_flag, operations } => is_video_family(
                f,
                queue_flag,
                operations,
            ),
        }
}

fn family_matches(f: &QueueFamilyInfo, i: usize, kind: FamilyKind) -> (r: bool)
    ensures
        r == family_kind_pred(kind)(*f, i as int),
{
    match kind {
        FamilyKind::DedicatedTransfer => (f.queue_flags & QUEUE_TRANSFER) == QUEUE_TRANSFER && (
        f.queue_flags & QUEUE_GRAPHICS) == 0,
        FamilyKind::GraphicsTransferCompute => {
            let req = QUEUE_GRAPHICS | QUEUE_TRANSFER | QUEUE_COMPUTE;
            (f.queue_flags & req) == req
        },
        FamilyKind::DedicatedCompute => (f.queue_flags & QUEUE_COMPUTE) == QUEUE_COMPUTE && (
        f.queue_flags & QUEUE_GRAPHICS) == 0,
        FamilyKind::FallbackCompute { graphics_transfer_compute } => (f.queue_flags
            & QUEUE_COMPUTE) == QUEUE_COMPUTE && (i != graphics_transfer_compute || f.queue_count
            >= 2),
        FamilyKind::Video { queue_flag, operations } => {
            (f.queue_flags & queue_flag) == queue_flag && match f.video_codec_operations {
                Some(v) => (v & operations) == operations,
                None => false,
            }
        },
    }
}

/// The first queue family of the given kind.
pub fn find_family(fams: &Vec<QueueFamilyInfo>, kind: FamilyKind) -> (r: Option<usize>)
    ensures
        match first_from(fams@, family_kind_pred(kind), 0) {
            Some(i) => r == Some(i as usize),
            None => r is None,
        },
        r matches Some(i) ==> i < fams@.len() && family_kind_pred(kind)(fams@[i as int], i as int),
        first_from(fams@, family_kind_pred(kind), 0) matches Some(i) ==> 0 <= i < fams@.len()
            && i <= usize::MAX && r == Some(i as usize),
        fams@.len() <= usize::MAX,
{
    proof {
        lemma_first_from(fams@, family_kind_pred(kind), 0);
    }
    assert(fams@.len() == fams.len());
    let mut i: usize = 0;
    while i < fams.len()
        invariant
            i <= fams@.len(),
            first_from(fams@, family_kind_pred(kind), 0) == first_from(
                fams@,
                family_kind_pred(kind),
                i as int,
            ),
        decreases fams.len() - i,
    {
        if family_matches(&fams[i], i, kind) {
            return Some(i);
        }
        i = i + 1;
    }
    None
}

/// Queue family chosen for one role and how many of its queues to use.
#[derive(Debug, Clone, Copy, PartialEq, Eq, Structural)]
pub struct QueueIndex {
    pub family_index: usize,
    pub queue_count: usize,
}

/// The queue families a video device uses.
#[derive(Debug, Clone, Copy, PartialEq, Eq, Structural)]
pub struct QueueSelection {
    pub transfer: QueueIndex,
    pub compute: QueueIndex,
    pub graphics_transfer_compute: QueueIndex,
    pub h264_decode: Option<QueueIndex>,
    pub encode: Option<QueueIndex>,
}

pub open spec fn opt_index(o: Option<int>) -> Option<usize> {
    match o {
        Some(i) => Some(i as usize),
        None => None,
    }
}

/// The compute family: a dedicated one, else any compute family that leaves the graphics one's
/// only queue to its owner.
pub open spec fn spec_compute_family(fams: Seq<QueueFamilyInfo>, gtc: usize) -> Option<int> {
    match first_from(fams, family_kind_pred(FamilyKind::DedicatedCompute), 0) {
        Some(i) => Some(i),
        None => first_from(
            fams,
            family_kind_pred(FamilyKind::FallbackCompute { graphics_transfer_compute: gtc }),
            0,
        ),
    }
}

/// The compute family; see [`spec_compute_family`].
pub fn select_compute_family(fams: &Vec<QueueFamilyInfo>, gtc: usize) -> (r: Option<usize>)
    ensures
        match spec_compute_family(fams@, gtc) {
            Some(i) => r == Some(i as usize) && 0 <= i < fams@.len(),
            None => r is None,
        },
{
    let dedicated = find_family(fams, FamilyKind::DedicatedCompute);
    match dedicated {
        Some(i) => {
            assert(first_from(fams@, family_kind_pred(FamilyKind::DedicatedCompute), 0) is Some);
            Some(i)
        },
        None => {
            assert(first_from(fams@, family_kind_pred(FamilyKind::DedicatedCompute), 0) is None);
            find_family(fams, FamilyKind::FallbackCompute { graphics_transfer_compute: gtc })
        },
    }
}

/// The queue index of a found family, using all of its queues.
pub open spec fn family_queue(fams: Seq<QueueFamilyInfo>, i: Option<int>) -> Option<QueueIndex> {
    match i {
        Some(d) => Some(QueueIndex { family_index: d as usize, queue_count: fams[d].queue_count as usize }),
        None => None,
    }
}

/// The queue selection of [`select_queues`].
pub open spec fn spec_select_queues(
    fams: Seq<QueueFamilyInfo>,
    supports_any_decoding: bool,
    decode_operations: u32,
    supports_any_encoding: bool,
    encode_operations: u32,
) -> Option<QueueSelection> {
    let transfer = first_from(fams, family_kind_pred(FamilyKind::DedicatedTransfer), 0);
    let gtc = first_from(fams, family_kind_pred(FamilyKind::GraphicsTransferCompute), 0);
    let decode = if supports_any_decoding {
        first_from(
            fams,
            family_kind_pred(
                FamilyKind::Video { queue_flag: QUEUE_VIDEO_DECODE, operations: decode_operations },
            ),
            0,
        )
    } else {
        None
    };
    let encode = if supports_any_encoding {
        first_from(
            fams,
            family_kind_pred(
                FamilyKind::Video { queue_flag: QUEUE_VIDEO_ENCODE, operations: encode_operations },
            ),
            0,
        )
    } else {
        None
    };
    match (transfer, gtc) {
        (Some(t), Some(g)) => match spec_compute_family(fams, g as usize) {
            Some(c) => if decode is None && encode is None {
                None
            } else {
                Some(
                    QueueSelection {
                        transfer: QueueIndex {
                            family_index: t as usize,
                            queue_count: fams[t].queue_count as usize,
                        },
                        graphics_transfer_compute: QueueIndex {
                            family_index: g as usize,
                            queue_count: 1,
                        },
                        compute: QueueIndex {
                            family_index: c as usize,
                            queue_count: if c == g {
                                2
                            } else {
                                fams[c].queue_count as usize
                            },
                        },
                        h264_decode: family_queue(fams, decode),
                        encode: family_queue(fams, encode),
                    },
                )
            },
            None => None,
        },
        _ => None,
    }
}

/// Picks the queue families of a video device: a transfer family without graphics, a family
/// with graphics, transfer and compute, a compute family (see [`spec_compute_family`]), and the
/// first video decode and encode families whose codec operations cover the supported ones.
/// `None` when one of the first three is missing or when there is neither a decode nor an
/// encode family. The compute family gets two queues when it is the graphics family, the
/// graphics family one queue, the others all their queues.
pub fn select_queues(
    fams: &Vec<QueueFamilyInfo>,
    supports_any_decoding: bool,
    decode_operations: u32,
    supports_any_encoding: bool,
    encode_operations: u32,
) -> (r: Option<QueueSelection>)
    ensures
        r == spec_select_queues(
            fams@,
            supports_any_decoding,
            decode_operations,
            supports_any_encoding,
            encode_operations,
        ),
{
    let transfer = match find_family(fams, FamilyKind::DedicatedTransfer) {
        Some(i) => i,
        None => {
            return None;
        },
    };
    let gtc = match find_family(fams, FamilyKind::GraphicsTransferCompute) {
        Some(i) => i,
        None => {
            return None;
        },
    };
    let compute_choice = select_compute_family(fams, gtc);
    let compute = match compute_choice {
        Some(i) => i,
        None => {
            return None;
        },
    };

    let decode = if supports_any_decoding {
        find_family(
            fams,
            FamilyKind::Video { queue_flag: QUEUE_VIDEO_DECODE, operations: decode_operations },
        )
    } else {
        None
    };
    let encode = if supports_any_encoding {
        find_family(
            fams,
            FamilyKind::Video { queue_flag: QUEUE_VIDEO_ENCODE, operations: encode_operations },
        )
    } else {
        None
    };
    if decode.is_none() && encode.is_none() {
        return None;
    }
    let h264_decode = match decode {
        Some(d) => Some(QueueIndex { family_index: d, queue_count: fams[d].queue_count as usize }),
        None => None,
    };
    let encode_queue = match encode {
        Some(e) => Some(QueueIndex { family_index: e, queue_count: fams[e].queue_count as usize }),
        None => None,
    };
    Some(
        QueueSelection {
            transfer: QueueIndex {
                family_index: transfer,
                queue_count: fams[transfer].queue_count as usize,
            },
            compute: QueueIndex {
                family_index: compute,
                queue_count: if compute == gtc {
                    2
                } else {
                    fams[compute].queue_count as usize
                },
            },
            graphics_transfer_compute: QueueIndex { family_index: gtc, queue_count: 1 },
            h264_decode,
            encode: encode_queue,
        },
    )
}

/// Whether `list` holds a name equal to `name`.
pub open spec fn names_contain(list: Seq<String>, name: Seq<char>) -> bool {
    exists|i: int| 0 <= i < list.len() && (#[trigger] list[i])@ == name
}

/// Whether `available` lists the extension `name`.
pub fn has_extension(available: &Vec<String>, name: &str) -> (r: bool)
    ensures
        r == names_contain(available@, name@),
{
    let wanted = String::from_str(name);
    let mut i: usize = 0;
    while i < available.len()
        invariant
            i <= available@.len(),
            wanted@ == name@,
            forall|j: int| 0 <= j < i ==> (#[trigger] available@[j])@ != name@,
        decreases available.len() - i,
    {
        if available[i] == wanted {
            assert(available@[i as int]@ == name@);
            return true;
        }
        i = i + 1;
    }
    false
}

/// The names of a list of extension name strings.
pub open spec fn names_view(names: Seq<&'static str>) -> Seq<Seq<char>> {
    names.map_values(|n: &'static str| n@)
}

proof fn lemma_names_view_push(names: Seq<&'static str>, i: int)
    requires
        0 <= i < names.len(),
    ensures
        names_view(names.take(i + 1)) == names_view(names.take(i)).push(names[i]@),
{
    assert(names_view(names.take(i + 1)) =~= names_view(names.take(i)).push(names[i]@));
}

/// The required extensions that `available` lacks, in order.
pub fn missing_extensions(required: &Vec<&'static str>, available: &Vec<String>) -> (r: Vec<
    &'static str,
>)
    ensures
        names_view(r@) == names_view(required@).filter(|n: Seq<char>| !names_contain(available@, n)),
{
    let mut out: Vec<&'static str> = Vec::new();
    let mut i: usize = 0;
    while i < required.len()
        invariant
            i <= required@.len(),
            names_view(out@) == names_view(required@.take(i as int)).filter(
                |n: Seq<char>| !names_contain(available@, n),
            ),
        decreases required.len() - i,
    {
        let name = required[i];
        proof {
            assert(required@.take(i + 1) =~= required@.take(i as int).push(name));
            lemma_names_view_push(required@, i as int);
            crate::sync_state::lemma_filter_push(
                names_view(required@.take(i as int)),
                |n: Seq<char>| !names_contain(available@, n),
                name@,
            );
        }
        if !has_extension(available, name) {
            let ghost prev = out@;
            out.push(name);
            proof {
                assert(names_view(out@) =~= names_view(prev).push(name@));
            }
        }
        i = i + 1;
    }
    assert(required@.take(required@.len() as int) =~= required@);
    out
}

/// The required extensions that `available` has, in order.
pub fn supported_extensions(required: &Vec<&'static str>, available: &Vec<String>) -> (r: Vec<
    &'static str,
>)
    ensures
        names_view(r@) == names_view(required@).filter(|n: Seq<char>| names_contain(available@, n)),
{
    let mut out: Vec<&'static str> = Vec::new();
    let mut i: usize = 0;
    while i < required.len()
        invariant
            i <= required@.len(),
            names_view(out@) == names_view(required@.take(i as int)).filter(
                |n: Seq<char>| names_contain(available@, n),
            ),
        decreases required.len() - i,
    {
        let name = required[i];
        proof {
            assert(required@.take(i + 1) =~= required@.take(i as int).push(name));
            lemma_names_view_push(required@, i as int);
            crate::sync_state::lemma_filter_push(
                names_view(required@.take(i as int)),
                |n: Seq<char>| names_contain(available@, n),
                name@,
            );
        }
        if has_extension(available, name) {
            let ghost prev = out@;
            out.push(name);
            proof {
                assert(names_view(out@) =~= names_view(prev).push(name@));
            }
        }
        i = i + 1;
    }
    assert(required@.take(required@.len() as int) =~= required@);
    out
}

/// The Vulkan codec operation an extension name enables: H.264/H.265 encode and decode; none
/// for any other name.
pub open spec fn spec_codec_operation_of(name: Seq<char>) -> u32 {
    if name == "VK_KHR_video_encode_h264"@ {
        CODEC_OPERATION_ENCODE_H264
    } else if name == "VK_KHR_video_encode_h265"@ {
        CODEC_OPERATION_ENCODE_H265
    } else if name == "VK_KHR_video_decode_h264"@ {
        CODEC_OPERATION_DECODE_H264
    } else if name == "VK_KHR_video_decode_h265"@ {
        CODEC_OPERATION_DECODE_H265
    } else {
        0
    }
}

fn str_eq(a: &str, b: &str) -> (r: bool)
    ensures
        r == (a@ == b@),
{
    String::from_str(a) == String::from_str(b)
}

fn codec_operation_of(name: &str) -> (r: u32)
    ensures
        r == spec_codec_operation_of(name@),
        name@ == "VK_KHR_video_decode_h264"@ ==> r == CODEC_OPERATION_DECODE_H264,
        name@ == "VK_KHR_video_decode_h265"@ ==> r == CODEC_OPERATION_DECODE_H265,
        name@ == "VK_KHR_video_encode_h264"@ ==> r == CODEC_OPERATION_ENCODE_H264,
        name@ == "VK_KHR_video_encode_h265"@ ==> r == CODEC_OPERATION_ENCODE_H265,
{
    proof {
        lemma_codec_extension_names_differ();
    }
    if str_eq(name, "VK_KHR_video_encode_h264") {
        CODEC_OPERATION_ENCODE_H264
    } else if str_eq(name, "VK_KHR_video_encode_h265") {
        CODEC_OPERATION_ENCODE_H265
    } else if str_eq(name, "VK_KHR_video_decode_h264") {
        CODEC_OPERATION_DECODE_H264
    } else if str_eq(name, "VK_KHR_video_decode_h265") {
        CODEC_OPERATION_DECODE_H265
    } else {
        0
    }
}

/// The four codec extension names are different strings.
proof fn lemma_codec_extension_names_differ()
    ensures
        "VK_KHR_video_decode_h264"@ != "VK_KHR_video_decode_h265"@,
        "VK_KHR_video_decode_h264"@ != "VK_KHR_video_encode_h264"@,
        "VK_KHR_video_decode_h264"@ != "VK_KHR_video_encode_h265"@,
        "VK_KHR_video_decode_h265"@ != "VK_KHR_video_encode_h264"@,
        "VK_KHR_video_decode_h265"@ != "VK_KHR_video_encode_h265"@,
        "VK_KHR_video_encode_h264"@ != "VK_KHR_video_encode_h265"@,
{
    reveal_strlit("VK_KHR_video_decode_h264");
    reveal_strlit("VK_KHR_video_decode_h265");
    reveal_strlit("VK_KHR_video_encode_h264");
    reveal_strlit("VK_KHR_video_encode_h265");
    assert("VK_KHR_video_decode_h264"@[23] != "VK_KHR_video_decode_h265"@[23]);
    assert("VK_KHR_video_encode_h264"@[23] != "VK_KHR_video_encode_h265"@[23]);
    assert("VK_KHR_video_decode_h264"@[13] != "VK_KHR_video_encode_h264"@[13]);
    assert("VK_KHR_video_decode_h264"@[13] != "VK_KHR_video_encode_h265"@[13]);
    assert("VK_KHR_video_decode_h265"@[13] != "VK_KHR_video_encode_h264"@[13]);
    assert("VK_KHR_video_decode_h265"@[13] != "VK_KHR_video_encode_h265"@[13]);
}

/// Each codec extension stands for its own codec operation bit and nothing else.
proof fn lemma_codec_operation_bits(n: Seq<char>)
    ensures
        (spec_codec_operation_of(n) & CODEC_OPERATION_DECODE_H264 != 0) == (n
            == "VK_KHR_video_decode_h264"@),
        (spec_codec_operation_of(n) & CODEC_OPERATION_DECODE_H265 != 0) == (n
            == "VK_KHR_video_decode_h265"@),
        (spec_codec_operation_of(n) & CODEC_OPERATION_ENCODE_H264 != 0) == (n
            == "VK_KHR_video_encode_h264"@),
        (spec_codec_operation_of(n) & CODEC_OPERATION_ENCODE_H265 != 0) == (n
            == "VK_KHR_video_encode_h265"@),
        spec_codec_operation_of(n) & 0xfffc_fffcu32 == 0,
{
    lemma_codec_extension_names_differ();
    let v = spec_codec_operation_of(n);
    assert(forall|v: u32|
        (v == 0 || v == 1 || v == 2 || v == 0x10000 || v == 0x20000) ==> ((v & 1 != 0) == (v == 1)
            && (v & 2 != 0) == (v == 2) && (v & 0x10000 != 0) == (v == 0x10000) && (v & 0x20000
            != 0) == (v == 0x20000) && v & 0xfffc_fffc == 0)) by (bit_vector);
    assert(v == 0 || v == 1 || v == 2 || v == 0x10000 || v == 0x20000);
}

/// The codec operations a device supports are exactly those of the codec extensions it lists:
/// H.264 decode exactly when it lists `VK_KHR_video_decode_h264`, H.265 decode exactly when it
/// lists `VK_KHR_video_decode_h265`, and likewise for encode; no other bit is ever set.
pub proof fn law_codec_operations_follow_extensions(names: Seq<Seq<char>>)
    ensures
        (spec_codec_operations(names) & CODEC_OPERATION_DECODE_H264 != 0) == names.contains(
            "VK_KHR_video_decode_h264"@,
        ),
        (spec_codec_operations(names) & CODEC_OPERATION_DECODE_H265 != 0) == names.contains(
            "VK_KHR_video_decode_h265"@,
        ),
        (spec_codec_operations(names) & CODEC_OPERATION_ENCODE_H264 != 0) == names.contains(
            "VK_KHR_video_encode_h264"@,
        ),
        (spec_codec_operations(names) & CODEC_OPERATION_ENCODE_H265 != 0) == names.contains(
            "VK_KHR_video_encode_h265"@,
        ),
        spec_codec_operations(names) & 0xfffc_fffcu32 == 0,
    decreases names.len(),
{
    if names.len() == 0 {
        assert(0u32 & 1u32 == 0 && 0u32 & 2u32 == 0 && 0u32 & 0x10000u32 == 0 && 0u32 & 0x20000u32
            == 0 && 0u32 & 0xfffc_fffcu32 == 0) by (bit_vector);
    } else {
        let prev = names.drop_last();
        let last = names.last();
        law_codec_operations_follow_extensions(prev);
        lemma_codec_operation_bits(last);
        let a = spec_codec_operations(prev);
        let b = spec_codec_operation_of(last);
        assert(forall|a: u32, b: u32, m: u32| #![trigger (a | b) & m]
            ((a | b) & m != 0) == (a & m != 0 || b & m != 0)) by (bit_vector);
        assert(a & 0xfffc_fffcu32 == 0 && b & 0xfffc_fffcu32 == 0 ==> (a | b) & 0xfffc_fffcu32
            == 0) by (bit_vector);
        assert forall|x: Seq<char>| names.contains(x) == (prev.contains(x) || last == x) by {
            if names.contains(x) {
                let i = choose|i: int| 0 <= i < names.len() && names[i] == x;
                if i < names.len() - 1 {
                    assert(prev[i] == x);
                }
            }
            if prev.contains(x) {
                let i = choose|i: int| 0 <= i < prev.len() && prev[i] == x;
                assert(names[i] == x);
            }
            if last == x {
                assert(names[names.len() - 1] == x);
            }
        }
        assert(spec_codec_operations(names) == a | b);
        assert((a | b) & 1 != 0 == (a & 1 != 0 || b & 1 != 0));
        assert((a | b) & 2 != 0 == (a & 2 != 0 || b & 2 != 0));
        assert((a | b) & 0x10000 != 0 == (a & 0x10000 != 0 || b & 0x10000 != 0));
        assert((a | b) & 0x20000 != 0 == (a & 0x20000 != 0 || b & 0x20000 != 0));
    }
}

/// The union of the codec operations of the extensions.
pub open spec fn spec_codec_operations(names: Seq<Seq<char>>) -> u32
    decreases names.len(),
{
    if names.len() == 0 {
        0
    } else {
        spec_codec_operations(names.drop_last()) | spec_codec_operation_of(names.last())
    }
}

/// The video codec operations enabled by a list of codec extensions.
pub fn extensions_to_codec_operations(extensions: &Vec<&'static str>) -> (r: u32)
    ensures
        r == spec_codec_operations(names_view(extensions@)),
        (r & CODEC_OPERATION_DECODE_H264 != 0) == names_view(extensions@).contains(
            "VK_KHR_video_decode_h264"@,
        ),
        (r & CODEC_OPERATION_DECODE_H265 != 0) == names_view(extensions@).contains(
            "VK_KHR_video_decode_h265"@,
        ),
        (r & CODEC_OPERATION_ENCODE_H264 != 0) == names_view(extensions@).contains(
            "VK_KHR_video_encode_h264"@,
        ),
        (r & CODEC_OPERATION_ENCODE_H265 != 0) == names_view(extensions@).contains(
            "VK_KHR_video_encode_h265"@,
        ),
        r & 0xfffc_fffcu32 == 0,
{
    proof {
        law_codec_operations_follow_extensions(names_view(extensions@));
    }
    let mut acc: u32 = 0;
    let mut i: usize = 0;
    while i < extensions.len()
        invariant
            i <= extensions@.len(),
            acc == spec_codec_operations(names_view(extensions@.take(i as int))),
        decreases extensions.len() - i,
    {
        proof {
            lemma_names_view_push(extensions@, i as int);
            assert(names_view(extensions@.take(i + 1)).drop_last() =~= names_view(extensions@.take(i as int)));
        }
        acc = acc | codec_operation_of(extensions[i]);
        i = i + 1;
    }
    assert(extensions@.take(extensions@.len() as int) =~= extensions@);
    acc
}

/// Extensions every video device needs.
pub fn base_required_extensions() -> (r: Vec<&'static str>)
    ensures
        r@.len() == 2,
        r@[0]@ == "VK_KHR_video_queue"@,
        r@[1]@ == "VK_KHR_video_maintenance1"@,
{
    vec!["VK_KHR_video_queue", "VK_KHR_video_maintenance1"]
}

/// Extensions decoding needs besides the codec ones.
pub fn decode_extensions() -> (r: Vec<&'static str>)
    ensures
        r@.len() == 1,
        r@[0]@ == "VK_KHR_video_decode_queue"@,
{
    vec!["VK_KHR_video_decode_queue"]
}

/// Codec extensions for decoding.
pub fn decode_codec_extensions() -> (r: Vec<&'static str>)
    ensures
        r@.len() == 2,
        r@[0]@ == "VK_KHR_video_decode_h264"@,
        r@[1]@ == "VK_KHR_video_decode_h265"@,
{
    vec!["VK_KHR_video_decode_h264", "VK_KHR_video_decode_h265"]
}

/// Extensions encoding needs besides the codec ones.
pub fn encode_extensions() -> (r: Vec<&'static str>)
    ensures
        r@.len() == 1,
        r@[0]@ == "VK_KHR_video_encode_queue"@,
{
    vec!["VK_KHR_video_encode_queue"]
}

/// Codec extensions for encoding.
pub fn encode_codec_extensions() -> (r: Vec<&'static str>)
    ensures
        r@.len() == 2,
        r@[0]@ == "VK_KHR_video_encode_h264"@,
        r@[1]@ == "VK_KHR_video_encode_h265"@,
{
    vec!["VK_KHR_video_encode_h264", "VK_KHR_video_encode_h265"]
}

fn append_all(out: &mut Vec<&'static str>, items: Vec<&'static str>)
    ensures
        final(out)@ == old(out)@ + items@,
{
    let mut i: usize = 0;
    let ghost start = out@;
    while i < items.len()
        invariant
            i <= items@.len(),
            out@ == start + items@.take(i as int),
        decreases items.len() - i,
    {
        out.push(items[i]);
        assert(items@.take(i + 1) =~= items@.take(i as int).push(items@[i as int]));
        i = i + 1;
    }
    assert(items@.take(items@.len() as int) =~= items@);
}

/// The device extensions to enable: the base ones, then the decode ones and decode codec ones
/// when decoding is supported, then the encode ones and encode codec ones when encoding is.
pub fn required_extensions(supports_decoding: bool, supports_encoding: bool) -> (r: Vec<
    &'static str,
>)
    ensures
        r@.len() == 2 + (if supports_decoding {
            3int
        } else {
            0
        }) + (if supports_encoding {
            3int
        } else {
            0
        }),
        r@[0]@ == "VK_KHR_video_queue"@,
        r@[1]@ == "VK_KHR_video_maintenance1"@,
        supports_decoding ==> r@[2]@ == "VK_KHR_video_decode_queue"@ && r@[3]@
            == "VK_KHR_video_decode_h264"@ && r@[4]@ == "VK_KHR_video_decode_h265"@,
        supports_encoding ==> {
            let k = if supports_decoding {
                5int
            } else {
                2
            };
            r@[k]@ == "VK_KHR_video_encode_queue"@ && r@[k + 1]@ == "VK_KHR_video_encode_h264"@
                && r@[k + 2]@ == "VK_KHR_video_encode_h265"@
        },
{
    let mut out = base_required_extensions();
    if supports_decoding {
        append_all(&mut out, decode_extensions());
        append_all(&mut out, decode_codec_extensions());
    }
    if supports_encoding {
        append_all(&mut out, encode_extensions());
        append_all(&mut out, encode_codec_extensions());
    }
    out
}

/// The video plan for a Vulkan physical device: its queue families and what it can do.
#[derive(Debug, Clone, Copy, PartialEq, Eq, Structural)]
pub struct AdapterPlan {
    pub queues: QueueSelection,
    pub supports_any_decoding: bool,
    pub supports_any_encoding: bool,
    pub decode_operations: u32,
    pub encode_operations: u32,
    pub supports_decoding: bool,
    pub supports_encoding: bool,
}

/// Whether a list of names is listed entirely in `available`.
pub open spec fn all_available(required: Seq<Seq<char>>, available: Seq<String>) -> bool {
    required.filter(|n: Seq<char>| !names_contain(available, n)).len() == 0
}

/// What a family of extensions makes possible: its queue extensions are all there and at least
/// one of its codec extensions is; with the codec operations of the codec extensions present.
pub open spec fn spec_codec_support(
    queue_exts: Seq<Seq<char>>,
    codec_exts: Seq<Seq<char>>,
    available: Seq<String>,
) -> (bool, u32) {
    let supported = codec_exts.filter(|n: Seq<char>| names_contain(available, n));
    (all_available(queue_exts, available) && supported.len() > 0, spec_codec_operations(supported))
}

fn codec_support(
    queue_exts: Vec<&'static str>,
    codec_exts: Vec<&'static str>,
    available: &Vec<String>,
) -> (r: (bool, u32))
    ensures
        r == spec_codec_support(names_view(queue_exts@), names_view(codec_exts@), available@),
{
    let missing = missing_extensions(&queue_exts, available);
    let supported = supported_extensions(&codec_exts, available);
    let ops = extensions_to_codec_operations(&supported);
    proof {
        assert(names_view(supported@).len() == supported@.len());
    }
    (missing.len() == 0 && supported.len() > 0, ops)
}

/// The adapter plan of [`plan_vulkan_adapter`].
pub open spec fn spec_plan_vulkan_adapter(
    synchronization2: bool,
    available: Seq<String>,
    families: Seq<QueueFamilyInfo>,
) -> Option<AdapterPlan> {
    let (dec, dec_ops) = spec_codec_support(
        seq!["VK_KHR_video_decode_queue"@],
        seq!["VK_KHR_video_decode_h264"@, "VK_KHR_video_decode_h265"@],
        available,
    );
    let (enc, enc_ops) = spec_codec_support(
        seq!["VK_KHR_video_encode_queue"@],
        seq!["VK_KHR_video_encode_h264"@, "VK_KHR_video_encode_h265"@],
        available,
    );
    if !synchronization2 || !all_available(
        seq!["VK_KHR_video_queue"@, "VK_KHR_video_maintenance1"@],
        available,
    ) || !(dec || enc) {
        None
    } else {
        match spec_select_queues(families, dec, dec_ops, enc, enc_ops) {
            Some(q) => Some(
                AdapterPlan {
                    queues: q,
                    supports_any_decoding: dec,
                    supports_any_encoding: enc,
                    decode_operations: dec_ops,
                    encode_operations: enc_ops,
                    supports_decoding: q.h264_decode is Some,
                    supports_encoding: q.encode is Some,
                },
            ),
            None => None,
        }
    }
}

/// Decides whether a Vulkan physical device is a video adapter and how it is used. It is not
/// when it lacks synchronization2, lacks a base extension, supports neither decoding nor
/// encoding extensions, or lacks the queue families of [`select_queues`]. Decoding and encoding
/// are supported when a video queue family for them is found.
pub fn plan_vulkan_adapter(
    synchronization2: bool,
    available: &Vec<String>,
    families: &Vec<QueueFamilyInfo>,
) -> (r: Option<AdapterPlan>)
    ensures
        r == spec_plan_vulkan_adapter(synchronization2, available@, families@),
{
    if !synchronization2 {
        return None;
    }
    let base = base_required_extensions();
    let missing = missing_extensions(&base, available);
    proof {
        assert(names_view(base@) =~= seq!["VK_KHR_video_queue"@, "VK_KHR_video_maintenance1"@]);
        assert(names_view(missing@).len() == missing@.len());
    }
    if missing.len() > 0 {
        return None;
    }
    let dq = decode_extensions();
    let dc = decode_codec_extensions();
    let eq = encode_extensions();
    let ec = encode_codec_extensions();
    proof {
        assert(names_view(dq@) =~= seq!["VK_KHR_video_decode_queue"@]);
        assert(names_view(dc@) =~= seq!["VK_KHR_video_decode_h264"@, "VK_KHR_video_decode_h265"@]);
        assert(names_view(eq@) =~= seq!["VK_KHR_video_encode_queue"@]);
        assert(names_view(ec@) =~= seq!["VK_KHR_video_encode_h264"@, "VK_KHR_video_encode_h265"@]);
    }
    let (dec, dec_ops) = codec_support(dq, dc, available);
    let (enc, enc_ops) = codec_support(eq, ec, available);
    if !dec && !enc {
        return None;
    }
    let queues = match select_queues(families, dec, dec_ops, enc, enc_ops) {
        Some(q) => q,
        None => {
            return None;
        },
    };
    Some(
        AdapterPlan {
            queues,
            supports_any_decoding: dec,
            supports_any_encoding: enc,
            decode_operations: dec_ops,
            encode_operations: enc_ops,
            supports_decoding: queues.h264_decode.is_some(),
            supports_encoding: queues.encode.is_some(),
        },
    )
}


/// One device queue: its family and its index within the family.
#[derive(Debug, Clone, Copy, PartialEq, Eq, Structural)]
pub struct DeviceQueue {
    pub family_index: usize,
    pub queue_index: usize,
}

/// Where compute work is submitted.
#[derive(Debug, Clone, Copy, PartialEq, Eq, Structural)]
pub enum ComputeQueue {
    /// The transfer queue itself, when compute shares its family and the family has one queue.
    SameAsTransfer,
    Queue(DeviceQueue),
}

/// The queues a video device takes from its selected families.
pub struct DeviceQueuePlan {
    pub transfer: DeviceQueue,
    pub compute: ComputeQueue,
    pub wgpu: DeviceQueue,
    pub h264_decode: Vec<DeviceQueue>,
    pub encode: Vec<DeviceQueue>,
}

/// Every queue of a family, in index order; none for a missing family.
pub open spec fn all_queues(family: Option<QueueIndex>) -> Seq<DeviceQueue> {
    match family {
        Some(f) => Seq::new(
            f.queue_count as nat,
            |i: int| DeviceQueue { family_index: f.family_index, queue_index: i as usize },
        ),
        None => Seq::empty(),
    }
}

fn family_queues(family: Option<QueueIndex>) -> (r: Vec<DeviceQueue>)
    ensures
        r@ == all_queues(family),
{
    let mut out: Vec<DeviceQueue> = Vec::new();
    match family {
        None => {
            assert(out@ =~= all_queues(family));
            out
        },
        Some(f) => {
            let mut i: usize = 0;
            while i < f.queue_count
                invariant
                    i <= f.queue_count,
                    out@ =~= Seq::new(
                        i as nat,
                        |k: int| DeviceQueue { family_index: f.family_index, queue_index: k as usize },
                    ),
                decreases f.queue_count - i,
            {
                out.push(DeviceQueue { family_index: f.family_index, queue_index: i });
                i = i + 1;
            }
            out
        },
    }
}

/// Where compute work of a device goes: the second queue of the transfer family when compute
/// shares that family and it has more than one queue, the transfer queue itself when it has
/// one; the second queue of wgpu's graphics family when compute falls back to that family (its
/// first queue is wgpu's, and two threads must not submit to one queue); else the first queue
/// of the compute family.
pub open spec fn spec_compute_queue(selection: QueueSelection) -> ComputeQueue {
    if selection.compute.family_index == selection.transfer.family_index {
        if selection.transfer.queue_count > 1 {
            ComputeQueue::Queue(
                DeviceQueue { family_index: selection.transfer.family_index, queue_index: 1 },
            )
        } else {
            ComputeQueue::SameAsTransfer
        }
    } else if selection.compute.family_index == selection.graphics_transfer_compute.family_index {
        ComputeQueue::Queue(
            DeviceQueue { family_index: selection.compute.family_index, queue_index: 1 },
        )
    } else {
        ComputeQueue::Queue(
            DeviceQueue { family_index: selection.compute.family_index, queue_index: 0 },
        )
    }
}

/// The queue compute work is submitted to, with the transfer queue standing in where compute
/// shares it.
pub open spec fn resolved_compute_queue(selection: QueueSelection) -> DeviceQueue {
    match spec_compute_queue(selection) {
        ComputeQueue::SameAsTransfer => DeviceQueue {
            family_index: selection.transfer.family_index,
            queue_index: 0,
        },
        ComputeQueue::Queue(q) => q,
    }
}

/// The queue wgpu submits to: the first of the graphics family.
pub open spec fn wgpu_queue(selection: QueueSelection) -> DeviceQueue {
    DeviceQueue { family_index: selection.graphics_transfer_compute.family_index, queue_index: 0 }
}

/// The queues of a device: the first transfer queue; the compute queue of
/// [`spec_compute_queue`]; the first queue of the graphics family for wgpu; and every queue of
/// the video families.
pub fn plan_device_queues(selection: QueueSelection) -> (r: DeviceQueuePlan)
    ensures
        r.transfer == (DeviceQueue { family_index: selection.transfer.family_index, queue_index: 0 }),
        r.wgpu == wgpu_queue(selection),
        r.compute == spec_compute_queue(selection),
        r.h264_decode@ == all_queues(selection.h264_decode),
        r.encode@ == all_queues(selection.encode),
{
    let transfer = DeviceQueue { family_index: selection.transfer.family_index, queue_index: 0 };
    let compute = if selection.compute.family_index == selection.transfer.family_index {
        if selection.transfer.queue_count > 1 {
            ComputeQueue::Queue(
                DeviceQueue { family_index: selection.transfer.family_index, queue_index: 1 },
            )
        } else {
            ComputeQueue::SameAsTransfer
        }
    } else if selection.compute.family_index == selection.graphics_transfer_compute.family_index {
        ComputeQueue::Queue(DeviceQueue { family_index: selection.compute.family_index, queue_index: 1 })
    } else {
        ComputeQueue::Queue(DeviceQueue { family_index: selection.compute.family_index, queue_index: 0 })
    };
    DeviceQueuePlan {
        transfer,
        compute,
        wgpu: DeviceQueue {
            family_index: selection.graphics_transfer_compute.family_index,
            queue_index: 0,
        },
        h264_decode: family_queues(selection.h264_decode),
        encode: family_queues(selection.encode),
    }
}


/// Two threads must not submit to one queue, so compute work never goes to wgpu's queue: when
/// it falls back to the graphics family that wgpu uses, that family has a second queue, two
/// queues are taken from it, and compute submits to the second one.
pub proof fn law_compute_never_takes_wgpus_only_queue(
    fams: Seq<QueueFamilyInfo>,
    supports_any_decoding: bool,
    decode_operations: u32,
    supports_any_encoding: bool,
    encode_operations: u32,
)
    requires
        fams.len() <= usize::MAX,
    ensures
        match spec_select_queues(
            fams,
            supports_any_decoding,
            decode_operations,
            supports_any_encoding,
            encode_operations,
        ) {
            Some(sel) => resolved_compute_queue(sel) != wgpu_queue(sel) && (
            sel.compute.family_index == sel.graphics_transfer_compute.family_index ==> (0
                <= sel.graphics_transfer_compute.family_index < fams.len()
                && fams[sel.graphics_transfer_compute.family_index as int].queue_count >= 2
                && sel.compute.queue_count == 2 && resolved_compute_queue(sel) == (DeviceQueue {
                family_index: sel.compute.family_index,
                queue_index: 1,
            }))),
            None => true,
        },
{
    let t = first_from(fams, family_kind_pred(FamilyKind::DedicatedTransfer), 0);
    let g = first_from(fams, family_kind_pred(FamilyKind::GraphicsTransferCompute), 0);
    lemma_first_from(fams, family_kind_pred(FamilyKind::GraphicsTransferCompute), 0);
    lemma_first_from(fams, family_kind_pred(FamilyKind::DedicatedTransfer), 0);
    if let (Some(ti), Some(gi)) = (t, g) {
        let dedicated = first_from(fams, family_kind_pred(FamilyKind::DedicatedCompute), 0);
        lemma_first_from(fams, family_kind_pred(FamilyKind::DedicatedCompute), 0);
        let fallback = family_kind_pred(
            FamilyKind::FallbackCompute { graphics_transfer_compute: gi as usize },
        );
        lemma_first_from(fams, fallback, 0);
        assert(is_graphics_transfer_compute(fams[gi]));
        let gf = fams[gi].queue_flags;
        assert(QUEUE_GRAPHICS | QUEUE_TRANSFER | QUEUE_COMPUTE == 7u32) by (bit_vector);
        assert(gf & 1u32 != 0) by (bit_vector)
            requires
                gf & 7u32 == 7u32,
        ;
        assert(is_dedicated_transfer(fams[ti]));
        assert(ti != gi);
        match dedicated {
            Some(c) => {
                assert(is_dedicated_compute(fams[c]));
                assert(c != gi);
            },
            None => {
                match first_from(fams, fallback, 0) {
                    Some(c) => {
                        assert(fallback(fams[c], c));
                        assert((gi as usize) as int == gi);
                        assert(is_fallback_compute(fams[c], c, gi));
                    },
                    None => {},
                }
            },
        }
    }
}

} // verus!
