use vstd::prelude::*;

use crate::text::{decimal, owned, push_decimal, push_str};

verus! {

/// `VK_IMAGE_CREATE_MUTABLE_FORMAT_BIT`
pub const IMAGE_CREATE_MUTABLE_FORMAT: u32 = 0x8;
/// `VK_IMAGE_CREATE_EXTENDED_USAGE_BIT`
pub const IMAGE_CREATE_EXTENDED_USAGE: u32 = 0x100;
/// `VK_IMAGE_CREATE_DISJOINT_BIT`
pub const IMAGE_CREATE_DISJOINT: u32 = 0x200;
/// `VK_FORMAT_FEATURE_2_SAMPLED_IMAGE_BIT`
pub const FORMAT_FEATURE_2_SAMPLED_IMAGE: u64 = 0x1;
/// `VK_FORMAT_FEATURE_2_TRANSFER_SRC_BIT`
pub const FORMAT_FEATURE_2_TRANSFER_SRC: u64 = 0x4000;
/// `VK_FORMAT_FEATURE_2_TRANSFER_DST_BIT`
pub const FORMAT_FEATURE_2_TRANSFER_DST: u64 = 0x8000;
/// `VK_FORMAT_FEATURE_2_DISJOINT_BIT`
pub const FORMAT_FEATURE_2_DISJOINT: u64 = 0x400000;
/// `VK_IMAGE_USAGE_TRANSFER_SRC_BIT`
pub const IMAGE_USAGE_TRANSFER_SRC: u32 = 0x1;
/// `VK_IMAGE_USAGE_TRANSFER_DST_BIT`
pub const IMAGE_USAGE_TRANSFER_DST: u32 = 0x2;
/// `VK_IMAGE_USAGE_SAMPLED_BIT`
pub const IMAGE_USAGE_SAMPLED: u32 = 0x4;
/// `VK_MEMORY_PROPERTY_DEVICE_LOCAL_BIT`
pub const MEMORY_PROPERTY_DEVICE_LOCAL: u32 = 0x1;
/// `DRM_FORMAT_MOD_LINEAR`
pub const DRM_FORMAT_MOD_LINEAR: u64 = 0;

/// Size of a video frame in pixels.
#[derive(Debug, Clone, Copy, PartialEq, Eq, Structural)]
pub struct VideoResolution {
    pub width: u32,
    pub height: u32,
}

/// One DMA-BUF memory object: its file descriptor handle, size in bytes and DRM modifier.
pub struct DmaBufObject<F> {
    pub fd: F,
    pub size: u32,
    pub modifier: u64,
}

/// Where one plane of an image lives: which object, at which offset, with which row pitch.
#[derive(Debug, Clone, Copy, PartialEq, Eq, Structural)]
pub struct DmaBufPlane {
    pub object_index: usize,
    pub offset: u32,
    pub pitch: u32,
}

/// The two planes (Y, then interleaved UV) of an NV12 image.
#[derive(Debug, Clone, Copy)]
pub struct Nv12DmaBufLayer {
    pub planes: [DmaBufPlane; 2],
}

/// A validated NV12 DMA-BUF: both planes in one object, or each plane in its own object, with
/// the plane object indexes renumbered to match the object array.
#[allow(inconsistent_fields)]
pub enum Nv12DmaBufMemory<F> {
    Single { objects: [DmaBufObject<F>; 1], planes: [DmaBufPlane; 2] },
    Disjoint { objects: [DmaBufObject<F>; 2], planes: [DmaBufPlane; 2] },
}

/// Errors of DMA-BUF interop.
#[derive(Debug)]
pub enum DmaBufError {
    InvalidLayout(String),
    UnsupportedDevice(String),
    Vulkan(String),
}

/// The planes with their object indexes replaced by `object_indexes`.
pub open spec fn spec_canonical_nv12_planes(
    y_plane: DmaBufPlane,
    uv_plane: DmaBufPlane,
    object_indexes: [usize; 2],
) -> [DmaBufPlane; 2] {
    [
        DmaBufPlane {
            object_index: object_indexes@[0],
            offset: y_plane.offset,
            pitch: y_plane.pitch,
        },
        DmaBufPlane {
            object_index: object_indexes@[1],
            offset: uv_plane.offset,
            pitch: uv_plane.pitch,
        },
    ]
}

pub fn canonical_nv12_planes(
    y_plane: DmaBufPlane,
    uv_plane: DmaBufPlane,
    object_indexes: [usize; 2],
) -> (r: [DmaBufPlane; 2])
    ensures
        r == spec_canonical_nv12_planes(y_plane, uv_plane, object_indexes),
{
    [
        DmaBufPlane {
            object_index: object_indexes[0],
            offset: y_plane.offset,
            pitch: y_plane.pitch,
        },
        DmaBufPlane {
            object_index: object_indexes[1],
            offset: uv_plane.offset,
            pitch: uv_plane.pitch,
        },
    ]
}

/// End of a plane in its object: offset plus one pitch per row.
pub open spec fn plane_end(plane: DmaBufPlane, rows: u32) -> int {
    plane.offset + plane.pitch * rows
}

/// The complaint about one plane, if any: it names a missing object, its pitch is below the
/// width, or its rows run past the end of its object.
pub open spec fn plane_error<F>(
    name: Seq<char>,
    plane: DmaBufPlane,
    objects: Seq<DmaBufObject<F>>,
    min_pitch: u32,
    rows: u32,
) -> Option<Seq<char>> {
    if plane.object_index >= objects.len() {
        Some("NV12 DMA-BUF "@ + name + " plane references object "@ + decimal(
            plane.object_index as nat,
        ) + ", but only "@ + decimal(objects.len()) + " objects exist"@)
    } else if plane.pitch < min_pitch {
        Some("NV12 DMA-BUF "@ + name + " plane pitch "@ + decimal(plane.pitch as nat)
            + " is smaller than required width "@ + decimal(min_pitch as nat))
    } else if plane_end(plane, rows) > objects[plane.object_index as int].size {
        Some("NV12 DMA-BUF "@ + name + " plane range "@ + decimal(plane_end(plane, rows) as nat)
            + " exceeds object "@ + decimal(plane.object_index as nat) + " size "@ + decimal(
            objects[plane.object_index as int].size as nat,
        ))
    } else {
        None
    }
}

/// Whether every object has the modifier of the first one.
pub open spec fn modifiers_agree<F>(objects: Seq<DmaBufObject<F>>) -> bool {
    forall|i: int| 0 <= i < objects.len() ==> (#[trigger] objects[i]).modifier == objects[0].modifier
}

/// The complaint about an NV12 DMA-BUF description, checked in this order: empty or odd
/// dimensions, an object count outside 1..=2, mixed modifiers, the Y plane, the UV plane (half
/// the rows), and an object count that does not match the plane placement.
pub open spec fn nv12_layout_error<F>(
    resolution: VideoResolution,
    objects: Seq<DmaBufObject<F>>,
    layer: Nv12DmaBufLayer,
) -> Option<Seq<char>> {
    let w = resolution.width;
    let h = resolution.height;
    let y = layer.planes@[0];
    let uv = layer.planes@[1];
    if w == 0 || h == 0 {
        Some("NV12 DMA-BUF has invalid size "@ + decimal(w as nat) + "x"@ + decimal(h as nat))
    } else if w % 2 != 0 || h % 2 != 0 {
        Some("NV12 DMA-BUF dimensions must be even, got "@ + decimal(w as nat) + "x"@ + decimal(
            h as nat,
        ))
    } else if objects.len() == 0 || objects.len() > 2 {
        Some("NV12 DMA-BUF object count "@ + decimal(objects.len())
            + " is outside supported limit 1..=2"@)
    } else if !modifiers_agree(objects) {
        Some("NV12 DMA-BUF objects must share a single DRM modifier"@)
    } else if plane_error("Y"@, y, objects, w, h) is Some {
        plane_error("Y"@, y, objects, w, h)
    } else if plane_error("UV"@, uv, objects, w, (h / 2) as u32) is Some {
        plane_error("UV"@, uv, objects, w, (h / 2) as u32)
    } else if y.object_index == uv.object_index {
        if objects.len() == 1 {
            None
        } else {
            Some("single-object NV12 DMA-BUF uses object "@ + decimal(y.object_index as nat)
                + ", but descriptor has "@ + decimal(objects.len()) + " objects"@)
        }
    } else {
        if objects.len() == 2 {
            None
        } else {
            Some("disjoint NV12 DMA-BUF requires one object per plane, got "@ + decimal(
                objects.len(),
            ) + " objects"@)
        }
    }
}

fn plane_name(y: bool) -> (r: &'static str)
    ensures
        r@ == if y {
            "Y"@
        } else {
            "UV"@
        },
{
    if y {
        "Y"
    } else {
        "UV"
    }
}

/// Checks one plane against its object; see [`plane_error`].
pub fn validate_nv12_plane<F>(
    is_y: bool,
    plane: DmaBufPlane,
    objects: &Vec<DmaBufObject<F>>,
    min_pitch: u32,
    rows: u32,
) -> (r: Result<(), DmaBufError>)
    ensures
        ({
            let name = if is_y {
                "Y"@
            } else {
                "UV"@
            };
            match r {
                Ok(()) => plane_error(name, plane, objects@, min_pitch, rows) is None,
                Err(DmaBufError::InvalidLayout(m)) => plane_error(
                    name,
                    plane,
                    objects@,
                    min_pitch,
                    rows,
                ) == Some(m@),
                Err(_) => false,
            }
        }),
{
    let name = plane_name(is_y);
    if plane.object_index >= objects.len() {
        let m = owned("NV12 DMA-BUF ");
        let m = push_str(m, name);
        let m = push_str(m, " plane references object ");
        let m = push_decimal(m, plane.object_index as u64);
        let m = push_str(m, ", but only ");
        let m = push_decimal(m, objects.len() as u64);
        let m = push_str(m, " objects exist");
        return Err(DmaBufError::InvalidLayout(m));
    }
    if plane.pitch < min_pitch {
        let m = owned("NV12 DMA-BUF ");
        let m = push_str(m, name);
        let m = push_str(m, " plane pitch ");
        let m = push_decimal(m, plane.pitch as u64);
        let m = push_str(m, " is smaller than required width ");
        let m = push_decimal(m, min_pitch as u64);
        return Err(DmaBufError::InvalidLayout(m));
    }
    assert((plane.pitch as u64) * (rows as u64) <= 0xffff_fffe_0000_0001u64) by (nonlinear_arith)
        requires
            plane.pitch <= u32::MAX,
            rows <= u32::MAX,
    ;
    let end: u64 = plane.offset as u64 + (plane.pitch as u64) * (rows as u64);
    let size = objects[plane.object_index].size;
    if end > size as u64 {
        let m = owned("NV12 DMA-BUF ");
        let m = push_str(m, name);
        let m = push_str(m, " plane range ");
        let m = push_decimal(m, end);
        let m = push_str(m, " exceeds object ");
        let m = push_decimal(m, plane.object_index as u64);
        let m = push_str(m, " size ");
        let m = push_decimal(m, size as u64);
        return Err(DmaBufError::InvalidLayout(m));
    }
    Ok(())
}

fn modifiers_agree_exec<F>(objects: &Vec<DmaBufObject<F>>) -> (r: bool)
    requires
        objects@.len() > 0,
    ensures
        r == modifiers_agree(objects@),
{
    let first = objects[0].modifier;
    let mut i: usize = 1;
    while i < objects.len()
        invariant
            1 <= i <= objects@.len(),
            first == objects@[0].modifier,
            forall|j: int| 0 <= j < i ==> objects@[j].modifier == first,
        decreases objects.len() - i,
    {
        if objects[i].modifier != first {
            return false;
        }
        i = i + 1;
    }
    true
}

/// Validates an NV12 DMA-BUF description and puts it in canonical form: a single object holding
/// both planes, or the Y plane's object first and the UV plane's object second. Returns the
/// first complaint of [`nv12_layout_error`] as an invalid-layout error.
pub fn validate_nv12_dmabuf_layout<F>(
    resolution: VideoResolution,
    objects: Vec<DmaBufObject<F>>,
    layer: Nv12DmaBufLayer,
) -> (r: Result<Nv12DmaBufMemory<F>, DmaBufError>)
    ensures
        match r {
            Ok(memory) => {
                &&& nv12_layout_error(resolution, objects@, layer) is None
                &&& if layer.planes@[0].object_index == layer.planes@[1].object_index {
                    memory == Nv12DmaBufMemory::Single {
                        objects: [objects@[0]],
                        planes: spec_canonical_nv12_planes(
                            layer.planes@[0],
                            layer.planes@[1],
                            [0, 0],
                        ),
                    }
                } else {
                    memory == Nv12DmaBufMemory::Disjoint {
                        objects: [
                            objects@[layer.planes@[0].object_index as int],
                            objects@[layer.planes@[1].object_index as int],
                        ],
                        planes: spec_canonical_nv12_planes(
                            layer.planes@[0],
                            layer.planes@[1],
                            [0, 1],
                        ),
                    }
                }
            },
            Err(DmaBufError::InvalidLayout(m)) => nv12_layout_error(resolution, objects@, layer)
                == Some(m@),
            Err(_) => false,
        },
{
    let width = resolution.width;
    let height = resolution.height;
    if width == 0 || height == 0 {
        let m = owned("NV12 DMA-BUF has invalid size ");
        let m = push_decimal(m, width as u64);
        let m = push_str(m, "x");
        let m = push_decimal(m, height as u64);
        return Err(DmaBufError::InvalidLayout(m));
    }
    if width % 2 != 0 || height % 2 != 0 {
        let m = owned("NV12 DMA-BUF dimensions must be even, got ");
        let m = push_decimal(m, width as u64);
        let m = push_str(m, "x");
        let m = push_decimal(m, height as u64);
        return Err(DmaBufError::InvalidLayout(m));
    }
    if objects.len() == 0 || objects.len() > 2 {
        let m = owned("NV12 DMA-BUF object count ");
        let m = push_decimal(m, objects.len() as u64);
        let m = push_str(m, " is outside supported limit 1..=2");
        return Err(DmaBufError::InvalidLayout(m));
    }
    if !modifiers_agree_exec(&objects) {
        return Err(
            DmaBufError::InvalidLayout(owned("NV12 DMA-BUF objects must share a single DRM modifier")),
        );
    }
    let y_plane = layer.planes[0];
    let uv_plane = layer.planes[1];
    match validate_nv12_plane(true, y_plane, &objects, width, height) {
        Ok(()) => {},
        Err(e) => {
            return Err(e);
        },
    }
    match validate_nv12_plane(false, uv_plane, &objects, width, height / 2) {
        Ok(()) => {},
        Err(e) => {
            return Err(e);
        },
    }
    let count = objects.len();
    if y_plane.object_index == uv_plane.object_index {
        if count == 1 {
            let mut objects = objects;
            let only = objects.remove(0);
            Ok(
                Nv12DmaBufMemory::Single {
                    objects: [only],
                    planes: canonical_nv12_planes(y_plane, uv_plane, [0, 0]),
                },
            )
        } else {
            let m = owned("single-object NV12 DMA-BUF uses object ");
            let m = push_decimal(m, y_plane.object_index as u64);
            let m = push_str(m, ", but descriptor has ");
            let m = push_decimal(m, count as u64);
            let m = push_str(m, " objects");
            Err(DmaBufError::InvalidLayout(m))
        }
    } else {
        if count == 2 {
            let ghost orig = objects@;
            let mut objects = objects;
            let second = objects.remove(1);
            let first = objects.remove(0);
            assert(second == orig[1] && first == orig[0]);
            if y_plane.object_index == 0 {
                Ok(
                    Nv12DmaBufMemory::Disjoint {
                        objects: [first, second],
                        planes: canonical_nv12_planes(y_plane, uv_plane, [0, 1]),
                    },
                )
            } else {
                Ok(
                    Nv12DmaBufMemory::Disjoint {
                        objects: [second, first],
                        planes: canonical_nv12_planes(y_plane, uv_plane, [0, 1]),
                    },
                )
            }
        } else {
            let m = owned("disjoint NV12 DMA-BUF requires one object per plane, got ");
            let m = push_decimal(m, count as u64);
            let m = push_str(m, " objects");
            Err(DmaBufError::InvalidLayout(m))
        }
    }
}

impl<F> Nv12DmaBufMemory<F> {
    pub open spec fn is_disjoint(&self) -> bool {
        self is Disjoint
    }

    /// Image creation flags for importing the memory: mutable format and extended usage, plus
    /// disjoint planes when each plane has its own object.
    pub fn image_flags(&self) -> (r: u32)
        ensures
            r == if self.is_disjoint() {
                IMAGE_CREATE_MUTABLE_FORMAT | IMAGE_CREATE_EXTENDED_USAGE | IMAGE_CREATE_DISJOINT
            } else {
                IMAGE_CREATE_MUTABLE_FORMAT | IMAGE_CREATE_EXTENDED_USAGE
            },
    {
        let flags = IMAGE_CREATE_MUTABLE_FORMAT | IMAGE_CREATE_EXTENDED_USAGE;
        match self {
            Nv12DmaBufMemory::Single { .. } => flags,
            Nv12DmaBufMemory::Disjoint { .. } => flags | IMAGE_CREATE_DISJOINT,
        }
    }

    /// Format features the DRM modifier must offer for the import, plus disjoint planes when
    /// each plane has its own object.
    pub fn required_import_features(&self) -> (r: u64)
        ensures
            r == if self.is_disjoint() {
                nv12_format_features_spec() | FORMAT_FEATURE_2_DISJOINT
            } else {
                nv12_format_features_spec()
            },
    {
        let features = nv12_format_features();
        match self {
            Nv12DmaBufMemory::Single { .. } => features,
            Nv12DmaBufMemory::Disjoint { .. } => features | FORMAT_FEATURE_2_DISJOINT,
        }
    }

    /// The canonical plane placement.
    pub fn planes(&self) -> (r: [DmaBufPlane; 2])
        ensures
            r == match self {
                Nv12DmaBufMemory::Single { planes, .. } => *planes,
                Nv12DmaBufMemory::Disjoint { planes, .. } => *planes,
            },
    {
        match self {
            Nv12DmaBufMemory::Single { planes, .. } => *planes,
            Nv12DmaBufMemory::Disjoint { planes, .. } => *planes,
        }
    }

    /// The DRM modifier of the memory, which all its objects share.
    pub fn modifier(&self) -> (r: u64)
        ensures
            r == match self {
                Nv12DmaBufMemory::Single { objects, .. } => objects@[0].modifier,
                Nv12DmaBufMemory::Disjoint { objects, .. } => objects@[0].modifier,
            },
    {
        match self {
            Nv12DmaBufMemory::Single { objects, .. } => objects[0].modifier,
            Nv12DmaBufMemory::Disjoint { objects, .. } => objects[0].modifier,
        }
    }
}

pub open spec fn nv12_format_features_spec() -> u64 {
    FORMAT_FEATURE_2_SAMPLED_IMAGE | FORMAT_FEATURE_2_TRANSFER_DST | FORMAT_FEATURE_2_TRANSFER_SRC
}

/// Format features every imported NV12 image needs: sampling and transfers both ways.
pub fn nv12_format_features() -> (r: u64)
    ensures
        r == nv12_format_features_spec(),
{
    FORMAT_FEATURE_2_SAMPLED_IMAGE | FORMAT_FEATURE_2_TRANSFER_DST | FORMAT_FEATURE_2_TRANSFER_SRC
}

/// Image usage of imported NV12 images: sampling and transfers both ways.
pub fn nv12_image_usage() -> (r: u32)
    ensures
        r == IMAGE_USAGE_SAMPLED | IMAGE_USAGE_TRANSFER_DST | IMAGE_USAGE_TRANSFER_SRC,
{
    IMAGE_USAGE_SAMPLED | IMAGE_USAGE_TRANSFER_DST | IMAGE_USAGE_TRANSFER_SRC
}

/// Whether `flags` holds every bit of `required`.
pub open spec fn contains_flags_u64(flags: u64, required: u64) -> bool {
    flags & required == required
}

/// Whether a DRM modifier can hold an NV12 image with the `required` features: it has exactly
/// two memory planes and its tiling features include the required ones.
pub fn supports_nv12_modifier(plane_count: u32, tiling_features: u64, required: u64) -> (r: bool)
    ensures
        r == (plane_count == 2 && contains_flags_u64(tiling_features, required)),
{
    plane_count == 2 && (tiling_features & required) == required
}

/// Whether memory type `index` is allowed by `type_bits` and has every flag of `required`.
pub open spec fn memory_type_matches(
    type_bits: u32,
    flags: Seq<u32>,
    index: int,
    required: u32,
) -> bool {
    &&& (type_bits >> index as u32) & 1 == 1
    &&& flags[index] & required == required
}

/// The lowest memory type index allowed by `type_bits` whose property flags contain
/// `required`; `memory_type_flags` lists the property flags of the device's memory types.
pub fn find_memory_type_index_for_properties(
    memory_type_flags: &Vec<u32>,
    type_bits: u32,
    required: u32,
) -> (r: Option<u32>)
    requires
        memory_type_flags@.len() <= 32,
    ensures
        match r {
            Some(i) => {
                &&& i < memory_type_flags@.len()
                &&& memory_type_matches(type_bits, memory_type_flags@, i as int, required)
                &&& forall|j: int|
                    0 <= j < i ==> !memory_type_matches(type_bits, memory_type_flags@, j, required)
            },
            None => forall|j: int|
                0 <= j < memory_type_flags@.len() ==> !memory_type_matches(
                    type_bits,
                    memory_type_flags@,
                    j,
                    required,
                ),
        },
{
    let mut i: usize = 0;
    while i < memory_type_flags.len()
        invariant
            i <= memory_type_flags@.len() <= 32,
            forall|j: int| 0 <= j < i ==> !memory_type_matches(type_bits, memory_type_flags@, j, required),
        decreases memory_type_flags.len() - i,
    {
        let allowed = (type_bits >> (i as u32)) & 1 == 1;
        let flags = memory_type_flags[i];
        if allowed && (flags & required) == required {
            return Some(i as u32);
        }
        i = i + 1;
    }
    None
}

/// Memory type for an exportable image: the lowest allowed device-local type, or else the
/// lowest allowed type.
pub fn find_export_memory_type(memory_type_flags: &Vec<u32>, type_bits: u32) -> (r: Option<u32>)
    requires
        memory_type_flags@.len() <= 32,
    ensures
        r == if first_memory_type(memory_type_flags@, type_bits, MEMORY_PROPERTY_DEVICE_LOCAL) is Some {
            first_memory_type(memory_type_flags@, type_bits, MEMORY_PROPERTY_DEVICE_LOCAL)
        } else {
            first_memory_type(memory_type_flags@, type_bits, 0)
        },
{
    let local = find_memory_type_index_for_properties(
        memory_type_flags,
        type_bits,
        MEMORY_PROPERTY_DEVICE_LOCAL,
    );
    proof {
        lemma_first_memory_type(memory_type_flags@, type_bits, MEMORY_PROPERTY_DEVICE_LOCAL, local);
    }
    match local {
        Some(i) => Some(i),
        None => {
            let r = find_memory_type_index_for_properties(memory_type_flags, type_bits, 0);
            proof {
                lemma_first_memory_type(memory_type_flags@, type_bits, 0, r);
            }
            r
        },
    }
}

/// The lowest memory type index allowed by `type_bits` whose flags contain `required`, if any.
pub open spec fn first_memory_type(flags: Seq<u32>, type_bits: u32, required: u32) -> Option<u32> {
    if exists|j: int| 0 <= j < flags.len() && memory_type_matches(type_bits, flags, j, required) {
        Some(
            choose|i: u32|
                i < flags.len() && memory_type_matches(type_bits, flags, i as int, required) && forall|
                    j: int,
                | 0 <= j < i ==> !memory_type_matches(type_bits, flags, j, required),
        )
    } else {
        None
    }
}

proof fn lemma_first_memory_type(flags: Seq<u32>, type_bits: u32, required: u32, r: Option<u32>)
    requires
        match r {
            Some(i) => {
                &&& i < flags.len()
                &&& memory_type_matches(type_bits, flags, i as int, required)
                &&& forall|j: int| 0 <= j < i ==> !memory_type_matches(type_bits, flags, j, required)
            },
            None => forall|j: int|
                0 <= j < flags.len() ==> !memory_type_matches(type_bits, flags, j, required),
        },
    ensures
        r == first_memory_type(flags, type_bits, required),
{
    match r {
        Some(i) => {
            assert(memory_type_matches(type_bits, flags, i as int, required));
            let c = choose|c: u32|
                c < flags.len() && memory_type_matches(type_bits, flags, c as int, required) && forall|
                    j: int,
                | 0 <= j < c ==> !memory_type_matches(type_bits, flags, j, required);
            assert(c == i) by {
                if c < i {
                    assert(!memory_type_matches(type_bits, flags, c as int, required));
                } else if i < c {
                    assert(!memory_type_matches(type_bits, flags, i as int, required));
                }
            }
        },
        None => {},
    }
}

} // verus!
