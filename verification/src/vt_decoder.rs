//! Decisions of the VideoToolbox H.264 decoder: the parameter sets it has seen, when its
//! decompression session has to be rebuilt, the metadata of a submitted picture, and how a
//! decoded NV12 picture is packed into bytes.
use vstd::prelude::*;

use rustc_hash::FxHashMap;

use crate::fx_table::{fx_get, fx_insert, fx_values};

use crate::params::{ColorRange, ColorSpace, DecoderUsage};
use crate::text::{decimal, owned, push_decimal, push_str};
use crate::vt_backend::VTDecoderError;
use crate::vt_encoder::{spec_pixel_format, PIXEL_FORMAT_NV12_FULL_RANGE, PIXEL_FORMAT_NV12_VIDEO_RANGE};

verus! {

/// What the decoder keeps of a sequence parameter set.
pub struct SpsRecord {
    /// The NAL unit as received, behind its 4-byte start code.
    pub raw: Vec<u8>,
    pub color_space: ColorSpace,
    pub color_range: ColorRange,
    /// The cropped picture size, or why it could not be computed.
    pub dimensions: Result<(u32, u32), String>,
}

/// A parameter set without its 4-byte start code.
pub open spec fn payload(raw: Vec<u8>) -> Seq<u8> {
    raw@.subrange(4, raw@.len() as int)
}

/// `list` holds the payloads of `table`'s values, one per key, in some order of the keys.
pub open spec fn lists_payloads<K>(list: Seq<Seq<u8>>, table: Map<K, Vec<u8>>) -> bool {
    exists|keys: Seq<K>|
        {
            &&& keys.no_duplicates()
            &&& keys.to_set() == table.dom()
            &&& list.len() == keys.len()
            &&& forall|i: int| 0 <= i < keys.len() ==> #[trigger] list[i] == payload(table[keys[i]])
        }
}

/// The key of a PPS in the PPS table: its SPS id in the high byte, its own id in the low one.
pub open spec fn pps_key(sps_id: u8, pps_id: u8) -> u16 {
    (sps_id * 256 + pps_id) as u16
}

/// The raw NAL units of an SPS table.
pub open spec fn sps_raws(table: Map<u8, SpsRecord>) -> Map<u8, Vec<u8>> {
    table.map_values(|s: SpsRecord| s.raw)
}

/// What ensuring a session for a picture comes to.
pub enum SessionStep {
    /// The current session stays as it is.
    Keep,
    /// A new format description has to be made from these parameter sets (SPS payloads, then
    /// PPS payloads) for pictures of this color range.
    Describe { color_range: ColorRange, range_changed: bool, parameter_sets: Vec<Vec<u8>> },
}

/// What to do with a new format description.
#[derive(Debug, Clone, Copy, PartialEq, Eq, Structural)]
pub enum SessionAction {
    /// The running session takes the new format.
    ReplaceFormat,
    /// A new session is needed, decoding into this CoreVideo pixel format; for offline and
    /// transcoding use it is told not to run in real time, and with Metal output its buffers
    /// must be Metal compatible.
    CreateSession { pixel_format: u32, disable_real_time: bool, metal_compatible: bool },
}

/// Whether a decoder used this way tells VideoToolbox not to decode in real time.
pub open spec fn spec_disables_real_time(usage: DecoderUsage) -> bool {
    match usage {
        DecoderUsage::Default | DecoderUsage::Streaming => false,
        DecoderUsage::Transcoding | DecoderUsage::Offline => true,
    }
}

/// A decoder for transcoding or offline work tells VideoToolbox not to decode in real time; a
/// default or streaming one leaves real-time decoding on.
pub proof fn law_real_time_disabled_exactly_for_batch_usages(usage: DecoderUsage)
    ensures
        spec_disables_real_time(usage) == (usage == DecoderUsage::Transcoding || usage
            == DecoderUsage::Offline),
        !spec_disables_real_time(DecoderUsage::Default),
        !spec_disables_real_time(DecoderUsage::Streaming),
{
}

/// The parser's view of one access unit to decode.
#[derive(Debug, Clone, Copy, PartialEq, Eq, Structural)]
pub struct DecodeInfo {
    pub sps_id: u8,
    pub pts: Option<u64>,
    pub pic_order_cnt: i32,
    pub max_num_reorder_frames: u64,
}

/// What travels with a submitted picture to its output.
#[derive(Debug, Clone, Copy, PartialEq, Eq, Structural)]
pub struct DecodeResultMetadata {
    pub pts: Option<u64>,
    pub pic_order_cnt: i32,
    pub max_num_reorder_frames: u64,
    pub is_idr: bool,
    pub color_space: ColorSpace,
    pub color_range: ColorRange,
    pub cropped_width: u32,
    pub cropped_height: u32,
}

/// The decoder's parameter sets and session bookkeeping.
pub struct VTDecoderState {
    sps: FxHashMap<u8, SpsRecord>,
    pps: FxHashMap<u16, Vec<u8>>,
    needs_session_update: bool,
    session_color_range: Option<ColorRange>,
    has_session: bool,
    usage: DecoderUsage,
    metal_compatible_output: bool,
}

impl VTDecoderState {
    pub closed spec fn sps_table(&self) -> Map<u8, SpsRecord> {
        self.sps@
    }

    pub closed spec fn pps_table(&self) -> Map<u16, Vec<u8>> {
        self.pps@
    }

    pub closed spec fn needs_session_update_spec(&self) -> bool {
        self.needs_session_update
    }

    pub closed spec fn session_color_range_spec(&self) -> Option<ColorRange> {
        self.session_color_range
    }

    pub closed spec fn has_session_spec(&self) -> bool {
        self.has_session
    }

    pub closed spec fn usage_spec(&self) -> DecoderUsage {
        self.usage
    }

    pub closed spec fn metal_compatible_spec(&self) -> bool {
        self.metal_compatible_output
    }

    /// Every stored parameter set holds more than its start code.
    pub open spec fn sets_framed(&self) -> bool {
        &&& forall|k: u8| #[trigger] self.sps_table().contains_key(k) ==> self.sps_table()[k].raw@.len() > 4
        &&& forall|k: u16| #[trigger] self.pps_table().contains_key(k) ==> self.pps_table()[k]@.len() > 4
    }

    /// The color range of pictures that use SPS `sps_id`; limited where the SPS is unknown.
    pub open spec fn color_range_for_spec(&self, sps_id: u8) -> ColorRange {
        if self.sps_table().contains_key(sps_id) {
            self.sps_table()[sps_id].color_range
        } else {
            ColorRange::Limited
        }
    }

    /// A decoder with no parameter sets and no session.
    pub fn new(usage: DecoderUsage, metal_compatible_output: bool) -> (r: Self)
        ensures
            r.sps_table() == Map::<u8, SpsRecord>::empty(),
            r.pps_table() == Map::<u16, Vec<u8>>::empty(),
            !r.needs_session_update_spec(),
            r.session_color_range_spec() is None,
            !r.has_session_spec(),
            r.usage_spec() == usage,
            r.metal_compatible_spec() == metal_compatible_output,
    {
        VTDecoderState {
            sps: FxHashMap::default(),
            pps: FxHashMap::default(),
            needs_session_update: false,
            session_color_range: None,
            has_session: false,
            usage,
            metal_compatible_output,
        }
    }

    /// Stores an SPS under its id, replacing one with the same id; the session has to take it.
    pub fn process_sps(&mut self, id: u8, record: SpsRecord)
        ensures
            final(self).sps_table() == old(self).sps_table().insert(id, record),
            final(self).pps_table() == old(self).pps_table(),
            final(self).needs_session_update_spec(),
            final(self).session_color_range_spec() == old(self).session_color_range_spec(),
            final(self).has_session_spec() == old(self).has_session_spec(),
            final(self).usage_spec() == old(self).usage_spec(),
            final(self).metal_compatible_spec() == old(self).metal_compatible_spec(),
    {
        fx_insert(&mut self.sps, id, record);
        self.needs_session_update = true;
    }

    /// Stores a PPS under its SPS id and PPS id, replacing one with the same ids; the session
    /// has to take it.
    pub fn process_pps(&mut self, sps_id: u8, pps_id: u8, raw: Vec<u8>)
        ensures
            final(self).pps_table() == old(self).pps_table().insert(pps_key(sps_id, pps_id), raw),
            final(self).sps_table() == old(self).sps_table(),
            final(self).needs_session_update_spec(),
            final(self).session_color_range_spec() == old(self).session_color_range_spec(),
            final(self).has_session_spec() == old(self).has_session_spec(),
            final(self).usage_spec() == old(self).usage_spec(),
            final(self).metal_compatible_spec() == old(self).metal_compatible_spec(),
    {
        let key = (sps_id as u16) * 256 + pps_id as u16;
        fx_insert(&mut self.pps, key, raw);
        self.needs_session_update = true;
    }

    /// The color range of pictures that use SPS `sps_id`.
    pub fn color_range_for(&self, sps_id: u8) -> (r: ColorRange)
        ensures
            r == self.color_range_for_spec(sps_id),
    {
        match fx_get(&self.sps, &sps_id) {
            Some(s) => s.color_range,
            None => ColorRange::Limited,
        }
    }

    /// Whether an IDR picture using SPS `sps_id` can go to the current session as it is: when
    /// there is one, no parameter set arrived since it was set up, and its color range is the
    /// picture's. Otherwise a new format description is needed, made from every stored SPS and
    /// then every stored PPS without start codes.
    pub fn session_step(&self, sps_id: u8) -> (r: SessionStep)
        requires
            self.sets_framed(),
        ensures
            ({
                let cr = self.color_range_for_spec(sps_id);
                let changed = self.session_color_range_spec() != Some(cr);
                if !self.needs_session_update_spec() && !changed && self.has_session_spec() {
                    r is Keep
                } else {
                    r matches SessionStep::Describe { color_range, range_changed, parameter_sets }
                        && color_range == cr && range_changed == changed && exists|
                        s: Seq<Seq<u8>>,
                        p: Seq<Seq<u8>>,
                    |
                        lists_payloads(s, sps_raws(self.sps_table())) && lists_payloads(
                            p,
                            self.pps_table(),
                        ) && parameter_sets@.map_values(|v: Vec<u8>| v@) == s + p
                }
            }),
    {
        let color_range = self.color_range_for(sps_id);
        let range_changed = match self.session_color_range {
            Some(c) => c != color_range,
            None => true,
        };
        if !self.needs_session_update && !range_changed && self.has_session {
            return SessionStep::Keep;
        }
        let records = fx_values(&self.sps);
        let sps_raws_list = record_raws(&records);
        let pps_raws_list = fx_values(&self.pps);
        let ghost rl = records@.map_values(|v: &SpsRecord| *v);
        let ghost sl = sps_raws_list@.map_values(|v: &Vec<u8>| *v);
        let ghost pl = pps_raws_list@.map_values(|v: &Vec<u8>| *v);
        let ghost raws = sps_raws(self.sps_table());
        let ghost sps_keys = choose|keys: Seq<u8>|
            {
                &&& keys.no_duplicates()
                &&& keys.to_set() == self.sps_table().dom()
                &&& rl.len() == keys.len()
                &&& forall|i: int| 0 <= i < keys.len() ==> #[trigger] rl[i] == self.sps_table()[keys[i]]
            };
        let ghost pps_keys = choose|keys: Seq<u16>|
            {
                &&& keys.no_duplicates()
                &&& keys.to_set() == self.pps_table().dom()
                &&& pl.len() == keys.len()
                &&& forall|i: int| 0 <= i < keys.len() ==> #[trigger] pl[i] == self.pps_table()[keys[i]]
            };
        proof {
            assert forall|i: int| 0 <= i < sps_keys.len() implies #[trigger] sl[i] == raws[sps_keys[i]] by {
                assert(rl[i] == self.sps_table()[sps_keys[i]]);
                assert(sps_keys.to_set().contains(sps_keys[i]));
            }
        }
        proof {
            assert(raws.dom() =~= self.sps_table().dom());
            assert forall|i: int| 0 <= i < sps_raws_list@.len() implies (#[trigger] sps_raws_list@[i])@.len() > 4 by {
                assert(sl[i] == raws[sps_keys[i]]);
                assert(sps_keys.to_set().contains(sps_keys[i]));
                assert(self.sps_table().contains_key(sps_keys[i]));
            }
            assert forall|i: int| 0 <= i < pps_raws_list@.len() implies (#[trigger] pps_raws_list@[i])@.len() > 4 by {
                assert(pl[i] == self.pps_table()[pps_keys[i]]);
                assert(pps_keys.to_set().contains(pps_keys[i]));
                assert(self.pps_table().contains_key(pps_keys[i]));
            }
        }
        let sps_payloads = strip_start_codes(&sps_raws_list);
        let pps_payloads = strip_start_codes(&pps_raws_list);
        let ghost s = sps_payloads@.map_values(|v: Vec<u8>| v@);
        let ghost p = pps_payloads@.map_values(|v: Vec<u8>| v@);
        let mut parameter_sets = sps_payloads;
        let mut pps_payloads = pps_payloads;
        parameter_sets.append(&mut pps_payloads);
        proof {
            assert forall|i: int| 0 <= i < sps_keys.len() implies #[trigger] s[i] == payload(
                raws[sps_keys[i]],
            ) by {
                assert(sl[i] == raws[sps_keys[i]]);
            }
            assert(lists_payloads(s, raws));
            assert forall|i: int| 0 <= i < pps_keys.len() implies #[trigger] p[i] == payload(
                self.pps_table()[pps_keys[i]],
            ) by {
                assert(pl[i] == self.pps_table()[pps_keys[i]]);
            }
            assert(lists_payloads(p, self.pps_table()));
            assert(parameter_sets@.map_values(|v: Vec<u8>| v@) =~= s + p);
        }
        SessionStep::Describe { color_range, range_changed, parameter_sets }
    }

    /// What to do once a new format description was made: the running session takes it when
    /// there is one, the color range did not change and the session accepts the description;
    /// otherwise a new session decodes into the NV12 format of the range.
    pub fn session_action(
        &self,
        color_range: ColorRange,
        range_changed: bool,
        session_accepts_format: bool,
    ) -> (r: SessionAction)
        ensures
            (!range_changed && self.has_session_spec() && session_accepts_format) ==> r
                == SessionAction::ReplaceFormat,
            !(!range_changed && self.has_session_spec() && session_accepts_format) ==> r
                == (SessionAction::CreateSession {
                    pixel_format: spec_pixel_format(color_range),
                    disable_real_time: spec_disables_real_time(self.usage_spec()),
                    metal_compatible: self.metal_compatible_spec(),
                }),
            r matches SessionAction::CreateSession { pixel_format, disable_real_time, .. } ==> (
            disable_real_time == (self.usage_spec() == DecoderUsage::Transcoding
                || self.usage_spec() == DecoderUsage::Offline) && pixel_format == (
            if color_range == ColorRange::Full {
                PIXEL_FORMAT_NV12_FULL_RANGE
            } else {
                PIXEL_FORMAT_NV12_VIDEO_RANGE
            })),
    {
        if !range_changed && self.has_session && session_accepts_format {
            SessionAction::ReplaceFormat
        } else {
            let pixel_format = match color_range {
                ColorRange::Full => crate::vt_encoder::PIXEL_FORMAT_NV12_FULL_RANGE,
                ColorRange::Limited => crate::vt_encoder::PIXEL_FORMAT_NV12_VIDEO_RANGE,
            };
            let disable_real_time = match self.usage {
                DecoderUsage::Default | DecoderUsage::Streaming => false,
                DecoderUsage::Transcoding | DecoderUsage::Offline => true,
            };
            SessionAction::CreateSession {
                pixel_format,
                disable_real_time,
                metal_compatible: self.metal_compatible_output,
            }
        }
    }

    /// The running session took the new format description.
    pub fn format_replaced(&mut self)
        ensures
            !final(self).needs_session_update_spec(),
            final(self).sps_table() == old(self).sps_table(),
            final(self).pps_table() == old(self).pps_table(),
            final(self).session_color_range_spec() == old(self).session_color_range_spec(),
            final(self).has_session_spec() == old(self).has_session_spec(),
            final(self).usage_spec() == old(self).usage_spec(),
            final(self).metal_compatible_spec() == old(self).metal_compatible_spec(),
    {
        self.needs_session_update = false;
    }

    /// A new session for pictures of `color_range` is running.
    pub fn session_created(&mut self, color_range: ColorRange)
        ensures
            !final(self).needs_session_update_spec(),
            final(self).has_session_spec(),
            final(self).session_color_range_spec() == Some(color_range),
            final(self).sps_table() == old(self).sps_table(),
            final(self).pps_table() == old(self).pps_table(),
            final(self).usage_spec() == old(self).usage_spec(),
            final(self).metal_compatible_spec() == old(self).metal_compatible_spec(),
    {
        self.needs_session_update = false;
        self.has_session = true;
        self.session_color_range = Some(color_range);
    }

    /// The metadata of a picture to submit, read from its SPS: unknown SPS ids and SPSs whose
    /// picture size cannot be computed are invalid input, and without a session nothing can
    /// be decoded.
    pub fn frame_metadata(&self, info: DecodeInfo, is_idr: bool) -> (r: Result<
        DecodeResultMetadata,
        VTDecoderError,
    >)
        ensures
            !self.sps_table().contains_key(info.sps_id) ==> (r matches Err(
                VTDecoderError::InvalidInputData(m),
            ) && m@ == "Unknown SPS id "@ + decimal(info.sps_id as nat)),
            self.sps_table().contains_key(info.sps_id) ==> ({
                let s = self.sps_table()[info.sps_id];
                match s.dimensions {
                    Err(e) => r matches Err(VTDecoderError::InvalidInputData(m)) && m@
                        == "Invalid SPS: "@ + e@,
                    Ok((w, h)) => if self.has_session_spec() {
                        r == Ok::<DecodeResultMetadata, VTDecoderError>(
                            DecodeResultMetadata {
                                pts: info.pts,
                                pic_order_cnt: info.pic_order_cnt,
                                max_num_reorder_frames: info.max_num_reorder_frames,
                                is_idr,
                                color_space: s.color_space,
                                color_range: s.color_range,
                                cropped_width: w,
                                cropped_height: h,
                            },
                        )
                    } else {
                        r matches Err(VTDecoderError::NoSession)
                    },
                }
            }),
    {
        let sps = match fx_get(&self.sps, &info.sps_id) {
            Some(s) => s,
            None => {
                let m = push_decimal(owned("Unknown SPS id "), info.sps_id as u64);
                return Err(VTDecoderError::InvalidInputData(m));
            },
        };
        let (w, h) = match &sps.dimensions {
            Ok(d) => *d,
            Err(e) => {
                return Err(VTDecoderError::InvalidInputData(push_str(owned("Invalid SPS: "), e.as_str())));
            },
        };
        let metadata = DecodeResultMetadata {
            pts: info.pts,
            pic_order_cnt: info.pic_order_cnt,
            max_num_reorder_frames: info.max_num_reorder_frames,
            is_idr,
            color_space: sps.color_space,
            color_range: sps.color_range,
            cropped_width: w,
            cropped_height: h,
        };
        if !self.has_session {
            return Err(VTDecoderError::NoSession);
        }
        Ok(metadata)
    }
}

/// The raw NAL units of SPS records, in order.
fn record_raws<'a>(records: &Vec<&'a SpsRecord>) -> (r: Vec<&'a Vec<u8>>)
    ensures
        r@.len() == records@.len(),
        forall|i: int| 0 <= i < records@.len() ==> *(#[trigger] r@[i]) == records@[i].raw,
{
    let mut out: Vec<&'a Vec<u8>> = Vec::new();
    let mut i: usize = 0;
    while i < records.len()
        invariant
            i <= records@.len(),
            out@.len() == i,
            forall|j: int| 0 <= j < i ==> *(#[trigger] out@[j]) == records@[j].raw,
        decreases records.len() - i,
    {
        let rec: &'a SpsRecord = records[i];
        out.push(&rec.raw);
        i = i + 1;
    }
    out
}

/// Copies of the given parameter sets without their 4-byte start codes, in order.
fn strip_start_codes(raws: &Vec<&Vec<u8>>) -> (r: Vec<Vec<u8>>)
    requires
        forall|i: int| 0 <= i < raws@.len() ==> (#[trigger] raws@[i])@.len() > 4,
    ensures
        r@.len() == raws@.len(),
        forall|i: int| 0 <= i < raws@.len() ==> (#[trigger] r@[i])@ == payload(*raws@[i]),
{
    let mut out: Vec<Vec<u8>> = Vec::new();
    let mut i: usize = 0;
    while i < raws.len()
        invariant
            i <= raws@.len(),
            out@.len() == i,
            forall|j: int| 0 <= j < raws@.len() ==> (#[trigger] raws@[j])@.len() > 4,
            forall|j: int| 0 <= j < i ==> (#[trigger] out@[j])@ == payload(*raws@[j]),
        decreases raws.len() - i,
    {
        let raw: &Vec<u8> = raws[i];
        let body = slice_from(raw.as_slice(), 4);
        out.push(body);
        i = i + 1;
    }
    out
}

/// `data[start..]` as a vector.
fn slice_from(data: &[u8], start: usize) -> (r: Vec<u8>)
    requires
        start <= data@.len(),
    ensures
        r@ == data@.subrange(start as int, data@.len() as int),
{
    let mut out: Vec<u8> = Vec::new();
    let mut i: usize = start;
    while i < data.len()
        invariant
            start <= i <= data@.len(),
            out@ == data@.subrange(start as int, i as int),
        decreases data.len() - i,
    {
        out.push(data[i]);
        proof {
            assert(data@.subrange(start as int, i + 1) =~= data@.subrange(start as int, i as int).push(data@[i as int]));
        }
        i = i + 1;
    }
    out
}

/// A decoded picture as tightly packed NV12 bytes.
pub struct RawFrameData {
    pub frame: Vec<u8>,
    pub width: u32,
    pub height: u32,
}

/// The first `rows` rows of `row_bytes` bytes each of a plane stored with `stride` bytes from
/// one row to the next, one after another.
pub open spec fn packed_rows(data: Seq<u8>, stride: int, row_bytes: int, rows: nat) -> Seq<u8>
    decreases rows,
{
    if rows == 0 {
        Seq::empty()
    } else {
        let start = (rows - 1) * stride;
        packed_rows(data, stride, row_bytes, (rows - 1) as nat) + data.subrange(start, start + row_bytes)
    }
}

/// Every row of the plane lies inside its buffer.
pub open spec fn rows_fit(len: int, stride: int, row_bytes: int, rows: int) -> bool {
    rows == 0 || (rows - 1) * stride + row_bytes <= len
}

/// Appends the rows of one plane to `out`, dropping the padding at the end of each row.
pub fn append_plane_rows(out: &mut Vec<u8>, data: &[u8], stride: usize, row_bytes: usize, rows: usize)
    requires
        rows_fit(data@.len() as int, stride as int, row_bytes as int, rows as int),
    ensures
        final(out)@ == old(out)@ + packed_rows(data@, stride as int, row_bytes as int, rows as nat),
{
    let mut line: usize = 0;
    let mut offset: usize = 0;
    let len = data.len();
    while line < rows
        invariant
            len == data@.len(),
            line <= rows,
            line < rows ==> offset == line * stride,
            rows_fit(data@.len() as int, stride as int, row_bytes as int, rows as int),
            out@ == old(out)@ + packed_rows(data@, stride as int, row_bytes as int, line as nat),
        decreases rows - line,
    {
        proof {
            vstd::arithmetic::mul::lemma_mul_inequality(line as int, (rows - 1) as int, stride as int);
        }
        let mut k: usize = 0;
        let ghost before = out@;
        while k < row_bytes
            invariant
                k <= row_bytes,
                offset + row_bytes <= data@.len(),
                out@ == before + data@.subrange(offset as int, offset + k),
            decreases row_bytes - k,
        {
            assert(offset + k < data.len());
            out.push(data[offset + k]);
            proof {
                assert(data@.subrange(offset as int, offset + k + 1) =~= data@.subrange(
                    offset as int,
                    offset + k,
                ).push(data@[offset + k]));
            }
            k = k + 1;
        }
        proof {
            assert(out@ =~= old(out)@ + packed_rows(
                data@,
                stride as int,
                row_bytes as int,
                (line + 1) as nat,
            ));
        }
        line = line + 1;
        if line < rows {
            proof {
                vstd::arithmetic::mul::lemma_mul_inequality(line as int, (rows - 1) as int, stride as int);
                let l = line as int;
                let st = stride as int;
                assert(l * st == (l - 1) * st + st) by (nonlinear_arith);
            }
            offset = offset + stride;
        }
    }
}

/// One plane of a decoded picture as the decoder's buffer holds it.
pub struct PlaneData<'a> {
    pub data: &'a [u8],
    /// Bytes from one row to the next.
    pub stride: usize,
    /// Samples per row; a chroma sample is two bytes (Cb and Cr).
    pub width: usize,
    pub height: usize,
}

/// The NV12 bytes of a decoded picture: the luma rows (one byte per sample), then the
/// interleaved chroma rows (two bytes per sample), without row padding.
pub fn download_to_bytes(width: usize, height: usize, luma: PlaneData, chroma: PlaneData) -> (r:
    RawFrameData)
    requires
        rows_fit(luma.data@.len() as int, luma.stride as int, luma.width as int, luma.height as int),
        chroma.width * 2 <= usize::MAX,
        rows_fit(
            chroma.data@.len() as int,
            chroma.stride as int,
            chroma.width * 2,
            chroma.height as int,
        ),
    ensures
        r.frame@ == packed_rows(luma.data@, luma.stride as int, luma.width as int, luma.height as nat)
            + packed_rows(chroma.data@, chroma.stride as int, chroma.width * 2, chroma.height as nat),
        r.width == width as u32,
        r.height == height as u32,
{
    let mut frame: Vec<u8> = Vec::new();
    append_plane_rows(&mut frame, luma.data, luma.stride, luma.width, luma.height);
    append_plane_rows(&mut frame, chroma.data, chroma.stride, chroma.width * 2, chroma.height);
    proof {
        assert(Seq::<u8>::empty() + packed_rows(luma.data@, luma.stride as int, luma.width as int, luma.height as nat)
            =~= packed_rows(luma.data@, luma.stride as int, luma.width as int, luma.height as nat));
    }
    RawFrameData { frame, width: width as u32, height: height as u32 }
}

} // verus!
