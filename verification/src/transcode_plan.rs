//! Planning of the Vulkan transcoder: checking every output's encoder parameters, the size of
//! the resizing pipeline's descriptor pool, the push constants that steer the resizing shader,
//! and the number of workgroups one resize dispatches.
use vstd::prelude::*;

use crate::capabilities::{H264Profile, H265Profile};
use crate::params::{EncoderOutputParameters, Rational};
use crate::text::{decimal, owned, push_decimal, push_str};
use crate::vulkan_params::{
    outcome_is, validate_and_fill_encoder_parameters, validation_outcome, EncodeProfileLimits,
    FullEncoderParameters, VulkanEncoderError,
};

verus! {

/// Most outputs one transcoder feeds.
pub const MAX_OUTPUTS: u32 = 8;

/// Storage-image descriptors one resize binds: the two input planes and two planes per output.
pub const DESCRIPTORS_PER_RESIZE: u32 = 18;

/// Descriptor sets one resize allocates: the input set and one set per output plane.
pub const SETS_PER_RESIZE: u32 = 3;

/// How an output picture is scaled from the decoded one.
#[derive(Debug, Clone, Copy, PartialEq, Eq, Structural)]
pub enum ScalingAlgorithm {
    NearestNeighbor,
    Bilinear,
    Lanczos3,
}

pub open spec fn spec_shader_code(algorithm: ScalingAlgorithm) -> u32 {
    match algorithm {
        ScalingAlgorithm::NearestNeighbor => 0,
        ScalingAlgorithm::Bilinear => 1,
        ScalingAlgorithm::Lanczos3 => 2,
    }
}

/// The shader reads nearest neighbor as 0, bilinear as 1 and Lanczos-3 as 2: each algorithm
/// has its own code.
pub proof fn law_shader_codes_are_distinct(a: ScalingAlgorithm, b: ScalingAlgorithm)
    ensures
        spec_shader_code(ScalingAlgorithm::NearestNeighbor) == 0,
        spec_shader_code(ScalingAlgorithm::Bilinear) == 1,
        spec_shader_code(ScalingAlgorithm::Lanczos3) == 2,
        spec_shader_code(a) == spec_shader_code(b) ==> a == b,
{
}

impl ScalingAlgorithm {
    /// The code the resizing shader reads for this algorithm.
    pub fn shader_code(self) -> (r: u32)
        ensures
            r == spec_shader_code(self),
            self == ScalingAlgorithm::NearestNeighbor ==> r == 0,
            self == ScalingAlgorithm::Bilinear ==> r == 1,
            self == ScalingAlgorithm::Lanczos3 ==> r == 2,
    {
        match self {
            ScalingAlgorithm::NearestNeighbor => 0,
            ScalingAlgorithm::Bilinear => 1,
            ScalingAlgorithm::Lanczos3 => 2,
        }
    }
}

/// The scaling kernels Metal Performance Shaders offers.
#[derive(Debug, Clone, Copy, PartialEq, Eq, Structural)]
pub enum MetalScaleKernel {
    Bilinear,
    Lanczos,
}

/// The Metal kernel for an algorithm: nearest neighbor is not available there and scales
/// bilinearly.
pub fn metal_scale_kernel(algorithm: ScalingAlgorithm) -> (r: MetalScaleKernel)
    ensures
        algorithm == ScalingAlgorithm::Lanczos3 ==> r == MetalScaleKernel::Lanczos,
        algorithm != ScalingAlgorithm::Lanczos3 ==> r == MetalScaleKernel::Bilinear,
{
    match algorithm {
        ScalingAlgorithm::NearestNeighbor | ScalingAlgorithm::Bilinear => MetalScaleKernel::Bilinear,
        ScalingAlgorithm::Lanczos3 => MetalScaleKernel::Lanczos,
    }
}

/// Errors of the Vulkan transcoder.
#[derive(Debug)]
pub enum VulkanTranscoderError {
    /// The decoder failed; holds its message.
    Decoder(String),
    Encoder(VulkanEncoderError),
    ReferenceManagementError(String),
    ParserError(String),
    /// A Vulkan object could not be made or used; holds the message.
    Common(String),
    /// A Vulkan call failed with this `VkResult`.
    Vulkan(i32),
    WrongOutputNumber { expected_max: usize, actual: usize },
}

/// The message of a wrong number of outputs.
pub open spec fn wrong_output_number_message(expected_max: usize, actual: usize) -> Seq<char> {
    "Wrong output number: expected a value between 0 and "@ + decimal(expected_max as nat)
        + ", found "@ + decimal(actual as nat)
}

impl VulkanTranscoderError {
    /// The message of a wrong number of outputs, as the error reads.
    pub fn wrong_output_number_text(expected_max: usize, actual: usize) -> (r: String)
        ensures
            r@ == wrong_output_number_message(expected_max, actual),
    {
        let m = owned("Wrong output number: expected a value between 0 and ");
        let m = push_decimal(m, expected_max as u64);
        let m = push_str(m, ", found ");
        push_decimal(m, actual as u64)
    }
}

/// A transcoder needs between one and [`MAX_OUTPUTS`] outputs.
pub fn check_output_count(actual: usize) -> (r: Result<(), VulkanTranscoderError>)
    ensures
        (1 <= actual <= MAX_OUTPUTS) ==> r is Ok,
        !(1 <= actual <= MAX_OUTPUTS) ==> (r matches Err(
            VulkanTranscoderError::WrongOutputNumber { expected_max, actual: a },
        ) && expected_max == MAX_OUTPUTS && a == actual),
{
    if actual == 0 || actual > 8 {
        return Err(VulkanTranscoderError::WrongOutputNumber { expected_max: 8, actual });
    }
    Ok(())
}

/// The size of the descriptor pool for `max_in_flight` resizes at once (at least one):
/// the storage-image descriptors, then the descriptor sets.
pub fn descriptor_pool_limits(max_in_flight: u32) -> (r: (u32, u32))
    requires
        DESCRIPTORS_PER_RESIZE * max_in_flight <= u32::MAX,
    ensures
        r.0 == DESCRIPTORS_PER_RESIZE * (if max_in_flight == 0 {
            1
        } else {
            max_in_flight
        }),
        r.1 == SETS_PER_RESIZE * (if max_in_flight == 0 {
            1
        } else {
            max_in_flight
        }),
{
    let n = if max_in_flight == 0 {
        1
    } else {
        max_in_flight
    };
    ((2 * MAX_OUTPUTS + 2) * n, SETS_PER_RESIZE * n)
}

/// `x` rounded up to a multiple of 16.
pub open spec fn round_up_16(x: nat) -> nat {
    ((x + 15) / 16 * 16) as nat
}

/// Workgroups of 256 invocations that cover one output: one invocation per pixel of the
/// output's extent rounded up to whole 16x16 tiles.
pub open spec fn output_groups(extent: (u32, u32)) -> nat {
    round_up_16(extent.0 as nat) * round_up_16(extent.1 as nat) / 256
}

/// A side rounded up to whole 16-pixel tiles is the smallest multiple of 16 that is not below
/// it, and the workgroups of an output, 256 invocations each, give exactly one invocation per
/// pixel of its tiled extent, so they cover every pixel of the output.
pub proof fn law_output_groups_cover_the_output(w: u32, h: u32)
    ensures
        round_up_16(w as nat) % 16 == 0,
        w <= round_up_16(w as nat) < w + 16,
        h <= round_up_16(h as nat) < h + 16,
        output_groups((w, h)) * 256 == round_up_16(w as nat) * round_up_16(h as nat),
        output_groups((w, h)) * 256 >= w * h,
{
    let a = round_up_16(w as nat);
    let b = round_up_16(h as nat);
    assert(a % 16 == 0 && w <= a < w + 16) by (nonlinear_arith)
        requires
            a == (w + 15) / 16 * 16,
    ;
    assert(b % 16 == 0 && h <= b < h + 16) by (nonlinear_arith)
        requires
            b == (h + 15) / 16 * 16,
    ;
    assert((a * b) % 256 == 0 && (a * b) / 256 * 256 == a * b) by (nonlinear_arith)
        requires
            a % 16 == 0,
            b % 16 == 0,
            a >= 0,
            b >= 0,
    {
        let qa = a / 16;
        let qb = b / 16;
        assert(a == qa * 16);
        assert(b == qb * 16);
        assert(a * b == (qa * qb) * 256);
    }
    assert(a * b >= w * h) by (nonlinear_arith)
        requires
            w <= a,
            h <= b,
            w >= 0,
            h >= 0,
    ;
}

/// Workgroups for all outputs.
pub open spec fn total_groups(extents: Seq<(u32, u32)>) -> nat
    decreases extents.len(),
{
    if extents.len() == 0 {
        0
    } else {
        total_groups(extents.drop_last()) + output_groups(extents.last())
    }
}

/// Every output's rounded-up sides and tiled pixel count fit in `u32`, and so does the total.
pub open spec fn dispatch_fits(extents: Seq<(u32, u32)>) -> bool {
    &&& forall|i: int|
        0 <= i < extents.len() ==> round_up_16((#[trigger] extents[i]).0 as nat) <= u32::MAX
            && round_up_16(extents[i].1 as nat) <= u32::MAX && round_up_16(extents[i].0 as nat)
            * round_up_16(extents[i].1 as nat) <= u32::MAX
    &&& total_groups(extents) <= u32::MAX
}

proof fn lemma_total_groups_monotone(extents: Seq<(u32, u32)>, i: int)
    requires
        0 <= i <= extents.len(),
    ensures
        total_groups(extents.take(i)) <= total_groups(extents),
    decreases extents.len() - i,
{
    if i < extents.len() {
        lemma_total_groups_monotone(extents, i + 1);
        assert(extents.take(i + 1).drop_last() =~= extents.take(i));
    } else {
        assert(extents.take(i) =~= extents);
    }
}

/// `x` rounded up to a multiple of 16, where that fits.
fn next_multiple_of_16(x: u32) -> (r: u32)
    requires
        x + 15 <= u32::MAX,
    ensures
        r == round_up_16(x as nat),
{
    (x + 15) / 16 * 16
}

/// The number of workgroups one resize dispatches for outputs of these extents.
pub fn dispatch_group_count(extents: &Vec<(u32, u32)>) -> (r: u32)
    requires
        dispatch_fits(extents@),
    ensures
        r == total_groups(extents@),
{
    let mut total: u32 = 0;
    let mut i: usize = 0;
    while i < extents.len()
        invariant
            i <= extents@.len(),
            dispatch_fits(extents@),
            total == total_groups(extents@.take(i as int)),
        decreases extents.len() - i,
    {
        let (w, h) = extents[i];
        proof {
            assert(w + 15 <= u32::MAX) by (nonlinear_arith)
                requires
                    round_up_16(w as nat) <= u32::MAX,
            ;
            assert(h + 15 <= u32::MAX) by (nonlinear_arith)
                requires
                    round_up_16(h as nat) <= u32::MAX,
            ;
        }
        let tiles_w = next_multiple_of_16(w);
        let tiles_h = next_multiple_of_16(h);
        proof {
            assert(extents@.take(i + 1).drop_last() =~= extents@.take(i as int));
            assert(extents@.take(i + 1).last() == extents@[i as int]);
            lemma_total_groups_monotone(extents@, i + 1);
        }
        let pixels = tiles_w * tiles_h;
        let groups = pixels / 256;
        total = total + groups;
        i = i + 1;
    }
    assert(extents@.take(extents@.len() as int) =~= extents@);
    total
}

/// The push constants of the resizing shader.
#[derive(Debug, Clone, Copy)]
pub struct PushConstants {
    pub output_count: u32,
    pub width: u32,
    pub height: u32,
    /// The shader code of each output's scaling algorithm; unused entries are zero.
    pub scaling_algorithm: [u32; 8],
}

/// The push constants for outputs scaled with `algorithms` from a decoded picture cropped to
/// `width` x `height`.
pub fn push_constants(algorithms: &Vec<ScalingAlgorithm>, width: u32, height: u32) -> (r:
    PushConstants)
    requires
        algorithms@.len() <= MAX_OUTPUTS,
    ensures
        r.output_count == algorithms@.len(),
        r.width == width,
        r.height == height,
        forall|i: int|
            0 <= i < 8 ==> #[trigger] r.scaling_algorithm[i] == if i < algorithms@.len() {
                spec_shader_code(algorithms@[i])
            } else {
                0
            },
{
    let mut codes: [u32; 8] = [0, 0, 0, 0, 0, 0, 0, 0];
    let mut i: usize = 0;
    while i < algorithms.len()
        invariant
            i <= algorithms@.len() <= 8,
            forall|j: int|
                0 <= j < 8 ==> #[trigger] codes[j] == if j < i {
                    spec_shader_code(algorithms@[j])
                } else {
                    0
                },
        decreases algorithms.len() - i,
    {
        codes[i] = algorithms[i].shader_code();
        i = i + 1;
    }
    PushConstants {
        output_count: algorithms.len() as u32,
        width,
        height,
        scaling_algorithm: codes,
    }
}

/// One output's encoder parameters, for either codec.
#[derive(Debug, Clone, Copy, PartialEq, Eq, Structural)]
pub enum AnyEncoderOutputParameters {
    H264(EncoderOutputParameters<H264Profile>),
    H265(EncoderOutputParameters<H265Profile>),
}

impl AnyEncoderOutputParameters {
    /// The parameters of either codec are well formed (see [`EncoderOutputParameters::wf`]).
    pub open spec fn wf(&self) -> bool {
        match self {
            AnyEncoderOutputParameters::H264(p) => p.wf(),
            AnyEncoderOutputParameters::H265(p) => p.wf(),
        }
    }
}

/// One output's checked and completed encoder parameters, for either codec.
#[derive(Debug, Clone, Copy, PartialEq, Eq, Structural)]
pub enum AnyFullEncoderParameters {
    H264(FullEncoderParameters<H264Profile>),
    H265(FullEncoderParameters<H265Profile>),
}

/// One output of a transcoder: its size, encoder, scaling, and the device's limits for its
/// codec profile.
pub struct TranscoderOutput {
    pub output_width: u32,
    pub output_height: u32,
    pub encoder_parameters: AnyEncoderOutputParameters,
    pub scaling_algorithm: ScalingAlgorithm,
    pub limits: EncodeProfileLimits,
}

/// What checking one output comes to: its completed parameters, or the field at fault and the
/// problem.
pub open spec fn output_outcome(o: TranscoderOutput, framerate: Rational) -> Result<
    AnyFullEncoderParameters,
    (Seq<char>, Seq<char>),
> {
    match o.encoder_parameters {
        AnyEncoderOutputParameters::H264(p) => match validation_outcome(
            o.limits.quality_levels@,
            o.limits,
            p,
            o.output_width,
            o.output_height,
            framerate,
        ) {
            Ok(full) => Ok(AnyFullEncoderParameters::H264(full)),
            Err(e) => Err(e),
        },
        AnyEncoderOutputParameters::H265(p) => match validation_outcome(
            o.limits.quality_levels@,
            o.limits,
            p,
            o.output_width,
            o.output_height,
            framerate,
        ) {
            Ok(full) => Ok(AnyFullEncoderParameters::H265(full)),
            Err(e) => Err(e),
        },
    }
}

/// `e` is the parameters error `(field, problem)`.
pub open spec fn error_is(e: VulkanEncoderError, fault: (Seq<char>, Seq<char>)) -> bool {
    e matches VulkanEncoderError::ParametersError { field, problem } && field@ == fault.0
        && problem@ == fault.1
}

/// Checks every output's encoder parameters against its limits at the input framerate, in
/// order; the first output that fails decides the error.
pub fn validate_transcoder_outputs(outputs: &Vec<TranscoderOutput>, framerate: Rational) -> (r:
    Result<Vec<AnyFullEncoderParameters>, VulkanEncoderError>)
    requires
        forall|i: int|
            0 <= i < outputs@.len() ==> 0 < (#[trigger] outputs@[i]).limits.quality_levels@.len()
                <= u32::MAX && outputs@[i].encoder_parameters.wf(),
    ensures
        r matches Ok(v) ==> v@.len() == outputs@.len() && forall|i: int|
            0 <= i < outputs@.len() ==> output_outcome(#[trigger] outputs@[i], framerate) == Ok::<
                AnyFullEncoderParameters,
                (Seq<char>, Seq<char>),
            >(v@[i]),
        r is Ok <==> forall|i: int|
            0 <= i < outputs@.len() ==> (#[trigger] output_outcome(outputs@[i], framerate)) is Ok,
        r matches Err(e) ==> exists|i: int|
            #![trigger outputs@[i]]
            0 <= i < outputs@.len() && (forall|j: int|
                0 <= j < i ==> (#[trigger] output_outcome(outputs@[j], framerate)) is Ok) && (
            output_outcome(outputs@[i], framerate) matches Err(fault) && error_is(e, fault)),
{
    let mut out: Vec<AnyFullEncoderParameters> = Vec::new();
    let mut i: usize = 0;
    while i < outputs.len()
        invariant
            i <= outputs@.len(),
            out@.len() == i,
            forall|j: int|
                0 <= j < outputs@.len() ==> 0 < (#[trigger] outputs@[j]).limits.quality_levels@.len()
                    <= u32::MAX && outputs@[j].encoder_parameters.wf(),
            forall|j: int|
                0 <= j < i ==> output_outcome(#[trigger] outputs@[j], framerate) == Ok::<
                    AnyFullEncoderParameters,
                    (Seq<char>, Seq<char>),
                >(out@[j]),
        decreases outputs.len() - i,
    {
        let o = &outputs[i];
        let checked = match o.encoder_parameters {
            AnyEncoderOutputParameters::H264(p) => {
                let r = validate_and_fill_encoder_parameters(
                    &o.limits,
                    p,
                    o.output_width,
                    o.output_height,
                    framerate,
                );
                match r {
                    Ok(full) => Ok(AnyFullEncoderParameters::H264(full)),
                    Err(e) => Err(e),
                }
            },
            AnyEncoderOutputParameters::H265(p) => {
                let r = validate_and_fill_encoder_parameters(
                    &o.limits,
                    p,
                    o.output_width,
                    o.output_height,
                    framerate,
                );
                match r {
                    Ok(full) => Ok(AnyFullEncoderParameters::H265(full)),
                    Err(e) => Err(e),
                }
            },
        };
        match checked {
            Ok(full) => {
                out.push(full);
            },
            Err(e) => {
                proof {
                    assert(forall|j: int|
                        0 <= j < i ==> (#[trigger] output_outcome(outputs@[j], framerate)) is Ok);
                    assert(output_outcome(outputs@[i as int], framerate) matches Err(fault)
                        && error_is(e, fault));
                }
                return Err(e);
            },
        }
        i = i + 1;
    }
    Ok(out)
}

/// What the resizing pipeline needs to know of one output.
#[derive(Debug, Clone, Copy, PartialEq, Eq, Structural)]
pub struct OutputConfig {
    pub width: u32,
    pub height: u32,
    pub scaling_algorithm: ScalingAlgorithm,
}

pub open spec fn spec_output_config(p: AnyFullEncoderParameters, s: ScalingAlgorithm) -> OutputConfig {
    match p {
        AnyFullEncoderParameters::H264(f) => OutputConfig {
            width: f.width,
            height: f.height,
            scaling_algorithm: s,
        },
        AnyFullEncoderParameters::H265(f) => OutputConfig {
            width: f.width,
            height: f.height,
            scaling_algorithm: s,
        },
    }
}

/// The resizing pipeline's view of the outputs: each output's size with its scaling
/// algorithm, pairing the two lists in order as far as both go.
pub fn pipeline_output_configs(
    parameters: &Vec<AnyFullEncoderParameters>,
    scaling_algorithms: &Vec<ScalingAlgorithm>,
) -> (r: Vec<OutputConfig>)
    ensures
        r@.len() == if parameters@.len() <= scaling_algorithms@.len() {
            parameters@.len()
        } else {
            scaling_algorithms@.len()
        },
        forall|i: int|
            0 <= i < r@.len() ==> #[trigger] r@[i] == spec_output_config(
                parameters@[i],
                scaling_algorithms@[i],
            ),
{
    let n = if parameters.len() <= scaling_algorithms.len() {
        parameters.len()
    } else {
        scaling_algorithms.len()
    };
    let mut out: Vec<OutputConfig> = Vec::new();
    let mut i: usize = 0;
    while i < n
        invariant
            i <= n,
            n <= parameters@.len(),
            n <= scaling_algorithms@.len(),
            out@.len() == i,
            forall|j: int|
                0 <= j < i ==> #[trigger] out@[j] == spec_output_config(
                    parameters@[j],
                    scaling_algorithms@[j],
                ),
        decreases n - i,
    {
        let s = scaling_algorithms[i];
        let c = match parameters[i] {
            AnyFullEncoderParameters::H264(f) => OutputConfig {
                width: f.width,
                height: f.height,
                scaling_algorithm: s,
            },
            AnyFullEncoderParameters::H265(f) => OutputConfig {
                width: f.width,
                height: f.height,
                scaling_algorithm: s,
            },
        };
        out.push(c);
        i = i + 1;
    }
    out
}

} // verus!
