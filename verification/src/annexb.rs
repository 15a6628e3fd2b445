use vstd::prelude::*;

verus! {

/// The start code that precedes every NAL unit in an Annex B byte stream.
pub open spec fn start_code() -> Seq<u8> {
    seq![0u8, 0u8, 0u8, 1u8]
}

/// A NAL unit with its Annex B start code.
pub open spec fn with_start_code(nal: Seq<u8>) -> Seq<u8> {
    start_code() + nal
}

/// The big-endian unsigned value of `bytes`.
pub open spec fn be_value(bytes: Seq<u8>) -> nat
    decreases bytes.len(),
{
    if bytes.len() == 0 {
        0
    } else {
        be_value(bytes.drop_last()) * 256 + (bytes.last() as nat)
    }
}

/// The Annex B form of a length-prefixed sample: each NAL unit is preceded by a big-endian length
/// of `n` bytes, which becomes a start code. `None` when a length or a NAL unit runs past the
/// end of the sample.
pub open spec fn annexb_of(data: Seq<u8>, n: nat) -> Option<Seq<u8>>
    recommends
        n >= 1,
    decreases data.len(),
    when n >= 1
{
    if data.len() == 0 {
        Some(Seq::empty())
    } else if data.len() < n {
        None
    } else {
        let len = be_value(data.take(n as int));
        if data.len() - n < len {
            None
        } else {
            match annexb_of(data.skip((n + len) as int), n) {
                Some(rest) => Some(with_start_code(data.subrange(n as int, (n + len) as int)) + rest),
                None => None,
            }
        }
    }
}

/// Errors of converting a length-prefixed sample.
#[derive(Debug, Clone, Copy, PartialEq, Eq, Structural)]
pub enum AnnexBError {
    /// A length prefix or a NAL unit runs past the end of the sample.
    TruncatedSample,
}

fn read_be(data: &[u8], start: usize, n: usize) -> (r: u64)
    requires
        1 <= n <= 4,
        start + n <= data@.len(),
    ensures
        r == be_value(data@.subrange(start as int, start + n)),
        r < 0x1_0000_0000,
{
    let mut v: u64 = 0;
    let mut i: usize = 0;
    assert(data@.len() == data.len());
    assert(data@.subrange(start as int, start as int) =~= Seq::<u8>::empty());
    while i < n
        invariant
            i <= n <= 4,
            start + n <= data@.len(),
            data@.len() <= usize::MAX,
            v == be_value(data@.subrange(start as int, start + i)),
            v < pow256(i as nat),
        decreases n - i,
    {
        let b = data[start + i];
        proof {
            let s = data@.subrange(start as int, start + i + 1);
            assert(s.drop_last() =~= data@.subrange(start as int, start + i));
            assert(s.last() == b);
            lemma_pow256_bound(i as nat);
            assert(v * 256 + b < pow256(i as nat) * 256) by (nonlinear_arith)
                requires
                    v < pow256(i as nat),
                    b < 256,
            ;
        }
        v = v * 256 + b as u64;
        i = i + 1;
    }
    proof {
        lemma_pow256_bound(n as nat);
    }
    v
}

/// `256` to the power `i`: one more than the largest value `i` bytes hold.
pub open spec fn pow256(i: nat) -> nat
    decreases i,
{
    if i == 0 {
        1
    } else {
        256 * pow256((i - 1) as nat)
    }
}

proof fn lemma_pow256_bound(i: nat)
    requires
        i <= 4,
    ensures
        pow256(i) <= 0x1_0000_0000,
        i < 4 ==> pow256(i) * 256 <= 0x1_0000_0000,
        i < 4 ==> pow256(i + 1) == pow256(i) * 256,
{
    reveal_with_fuel(pow256, 5);
}

/// Appends the Annex B form of a length-prefixed sample (see [`annexb_of`]) to `output`.
pub fn write_sample_as_annex_b(data: &[u8], nal_length_size: usize, output: &mut Vec<u8>) -> (r:
    Result<(), AnnexBError>)
    requires
        1 <= nal_length_size <= 4,
    ensures
        match annexb_of(data@, nal_length_size as nat) {
            Some(converted) => r is Ok && final(output)@ == old(output)@ + converted,
            None => r is Err,
        },
{
    let full_len = data.len();
    let mut offset: usize = 0;
    let ghost n = nal_length_size as nat;
    let ghost mut done = Seq::<u8>::empty();
    assert(data@.skip(0) =~= data@);
    while offset < full_len
        invariant
            1 <= nal_length_size <= 4,
            n == nal_length_size,
            full_len == data@.len(),
            offset <= full_len,
            output@ == old(output)@ + done,
            annexb_of(data@, n) == match annexb_of(data@.skip(offset as int), n) {
                Some(rest) => Some(done + rest),
                None => None,
            },
        decreases full_len - offset,
    {
        let ghost rest = data@.skip(offset as int);
        if full_len - offset < nal_length_size {
            return Err(AnnexBError::TruncatedSample);
        }
        let nal_length = read_be(data, offset, nal_length_size);
        assert(data@.subrange(offset as int, offset + nal_length_size) =~= rest.take(n as int));
        let nal_start = offset + nal_length_size;
        if ((full_len - nal_start) as u64) < nal_length {
            return Err(AnnexBError::TruncatedSample);
        }
        let nal_end = nal_start + nal_length as usize;
        output.push(0);
        output.push(0);
        output.push(0);
        output.push(1);
        let mut i = nal_start;
        let ghost before = output@;
        while i < nal_end
            invariant
                nal_start <= i <= nal_end <= full_len,
                full_len == data@.len(),
                output@ == before + data@.subrange(nal_start as int, i as int),
            decreases nal_end - i,
        {
            output.push(data[i]);
            assert(data@.subrange(nal_start as int, i + 1) =~= data@.subrange(
                nal_start as int,
                i as int,
            ).push(data@[i as int]));
            i = i + 1;
        }
        proof {
            let nal = data@.subrange(nal_start as int, nal_end as int);
            assert(rest.subrange(n as int, n + nal_length) =~= nal);
            assert(rest.skip(n + nal_length) =~= data@.skip(nal_end as int));
            assert(before =~= old(output)@ + done + start_code());
            let new_done = done + with_start_code(nal);
            match annexb_of(data@.skip(nal_end as int), n) {
                Some(r2) => {
                    assert(done + (with_start_code(nal) + r2) =~= new_done + r2);
                },
                None => {},
            }
            assert(output@ =~= old(output)@ + new_done);
            done = new_done;
        }
        offset = nal_end;
    }
    proof {
        assert(data@.skip(offset as int) =~= Seq::<u8>::empty());
        assert(done + Seq::<u8>::empty() =~= done);
    }
    Ok(())
}

/// Kinds of parameter set NAL units.
#[derive(Debug, Clone, Copy, PartialEq, Eq, Structural)]
pub enum ParameterSetKind {
    Vps,
    Sps,
    Pps,
}

/// The kind of an H.264 parameter set from its NAL unit type (the low five bits of the first
/// byte): 7 is an SPS, 8 a PPS.
pub open spec fn spec_h264_parameter_set_kind(nal: Seq<u8>) -> Option<ParameterSetKind> {
    if nal.len() == 0 {
        None
    } else if nal[0] & 0x1f == 7 {
        Some(ParameterSetKind::Sps)
    } else if nal[0] & 0x1f == 8 {
        Some(ParameterSetKind::Pps)
    } else {
        None
    }
}

/// The kind of an H.265 parameter set from its NAL unit type (bits 1..7 of the first byte):
/// 32 is a VPS, 33 an SPS, 34 a PPS.
pub open spec fn spec_h265_parameter_set_kind(nal: Seq<u8>) -> Option<ParameterSetKind> {
    if nal.len() == 0 {
        None
    } else if (nal[0] >> 1) & 0x3f == 32 {
        Some(ParameterSetKind::Vps)
    } else if (nal[0] >> 1) & 0x3f == 33 {
        Some(ParameterSetKind::Sps)
    } else if (nal[0] >> 1) & 0x3f == 34 {
        Some(ParameterSetKind::Pps)
    } else {
        None
    }
}

/// A NAL unit is read as a parameter set by the type in its header alone: in H.264 (type in the
/// low five bits of the first byte) 7 is an SPS and 8 a PPS; in H.265 (type in bits 1 to 6)
/// 32 is a VPS, 33 an SPS and 34 a PPS; every other type, and an empty unit, is none.
pub proof fn law_parameter_set_kinds_by_header(nal: Seq<u8>)
    ensures
        spec_h264_parameter_set_kind(nal) == Some(ParameterSetKind::Sps) <==> (nal.len() > 0 && nal[0]
            & 0x1f == 7),
        spec_h264_parameter_set_kind(nal) == Some(ParameterSetKind::Pps) <==> (nal.len() > 0 && nal[0]
            & 0x1f == 8),
        spec_h264_parameter_set_kind(nal) != Some(ParameterSetKind::Vps),
        spec_h265_parameter_set_kind(nal) == Some(ParameterSetKind::Vps) <==> (nal.len() > 0 && (
        nal[0] >> 1) & 0x3f == 32),
        spec_h265_parameter_set_kind(nal) == Some(ParameterSetKind::Sps) <==> (nal.len() > 0 && (
        nal[0] >> 1) & 0x3f == 33),
        spec_h265_parameter_set_kind(nal) == Some(ParameterSetKind::Pps) <==> (nal.len() > 0 && (
        nal[0] >> 1) & 0x3f == 34),
{
}

pub fn h264_parameter_set_kind(nal: &[u8]) -> (r: Option<ParameterSetKind>)
    ensures
        r == spec_h264_parameter_set_kind(nal@),
{
    if nal.len() == 0 {
        return None;
    }
    let t = nal[0] & 0x1f;
    if t == 7 {
        Some(ParameterSetKind::Sps)
    } else if t == 8 {
        Some(ParameterSetKind::Pps)
    } else {
        None
    }
}

pub fn h265_parameter_set_kind(nal: &[u8]) -> (r: Option<ParameterSetKind>)
    ensures
        r == spec_h265_parameter_set_kind(nal@),
{
    if nal.len() == 0 {
        return None;
    }
    let t = (nal[0] >> 1) & 0x3f;
    if t == 32 {
        Some(ParameterSetKind::Vps)
    } else if t == 33 {
        Some(ParameterSetKind::Sps)
    } else if t == 34 {
        Some(ParameterSetKind::Pps)
    } else {
        None
    }
}

/// The codec of a coded stream, which decides how its NAL unit headers are read.
#[derive(Debug, Clone, Copy, PartialEq, Eq, Structural)]
pub enum StreamCodec {
    H264,
    H265,
}

/// The kind of parameter set a NAL unit of the codec's stream is, by its header; `None` for a
/// NAL unit that is not a parameter set.
pub open spec fn spec_parameter_set_kind(codec: StreamCodec, nal: Seq<u8>) -> Option<ParameterSetKind> {
    match codec {
        StreamCodec::H264 => spec_h264_parameter_set_kind(nal),
        StreamCodec::H265 => spec_h265_parameter_set_kind(nal),
    }
}

/// The kind of parameter set a NAL unit is, by its header; see [`spec_parameter_set_kind`].
pub fn parameter_set_kind(codec: StreamCodec, nal: &[u8]) -> (r: Option<ParameterSetKind>)
    ensures
        r == spec_parameter_set_kind(codec, nal@),
{
    match codec {
        StreamCodec::H264 => h264_parameter_set_kind(nal),
        StreamCodec::H265 => h265_parameter_set_kind(nal),
    }
}

/// The parameter sets among `nals`, in order, each with the kind its header gives; NAL units
/// that are not parameter sets are left out.
pub open spec fn classified(codec: StreamCodec, nals: Seq<Seq<u8>>) -> Seq<(ParameterSetKind, Seq<u8>)>
    decreases nals.len(),
{
    if nals.len() == 0 {
        Seq::empty()
    } else {
        let prev = classified(codec, nals.drop_last());
        match spec_parameter_set_kind(codec, nals.last()) {
            Some(k) => prev.push((k, nals.last())),
            None => prev,
        }
    }
}

/// The length of the Annex B form of `nals`: each unit and its four-byte start code.
pub open spec fn annexb_len(nals: Seq<Seq<u8>>) -> int
    decreases nals.len(),
{
    if nals.len() == 0 {
        0
    } else {
        annexb_len(nals.drop_last()) + 4 + nals.last().len()
    }
}

proof fn lemma_annexb_len_prefix(nals: Seq<Seq<u8>>, i: int)
    requires
        0 <= i <= nals.len(),
    ensures
        annexb_len(nals.take(i)) <= annexb_len(nals),
    decreases nals.len() - i,
{
    if i < nals.len() {
        lemma_annexb_len_prefix(nals, i + 1);
        assert(nals.take(i + 1).drop_last() =~= nals.take(i));
    } else {
        assert(nals.take(i) =~= nals);
    }
}

/// Pushing NAL units one by one records exactly the parameter sets among them: of every kind,
/// the ones whose header names that kind, in the order they came.
pub proof fn law_classified_parameter_sets(codec: StreamCodec, nals: Seq<Seq<u8>>, wanted: ParameterSetKind)
    ensures
        nals_of_kind(classified(codec, nals), wanted) == nals.filter(
            |n: Seq<u8>| spec_parameter_set_kind(codec, n) == Some(wanted),
        ),
    decreases nals.len(),
{
    let pred = |n: Seq<u8>| spec_parameter_set_kind(codec, n) == Some(wanted);
    if nals.len() == 0 {
        assert(nals.filter(pred) =~= Seq::<Seq<u8>>::empty());
    } else {
        law_classified_parameter_sets(codec, nals.drop_last(), wanted);
        let prev = classified(codec, nals.drop_last());
        match spec_parameter_set_kind(codec, nals.last()) {
            Some(k) => {
                assert(prev.push((k, nals.last())).drop_last() =~= prev);
            },
            None => {},
        }
        assert(nals.filter(pred) == {
            let sub = nals.drop_last().filter(pred);
            if pred(nals.last()) {
                sub.push(nals.last())
            } else {
                sub
            }
        }) by {
            reveal_with_fuel(Seq::filter, 1);
        }
    }
}

/// The concatenation of the Annex B forms of the given NAL units.
pub open spec fn annexb_concat(nals: Seq<Seq<u8>>) -> Seq<u8>
    decreases nals.len(),
{
    if nals.len() == 0 {
        Seq::empty()
    } else {
        annexb_concat(nals.drop_last()) + with_start_code(nals.last())
    }
}

/// The NAL units of `entries` whose kind is `wanted`, in order.
pub open spec fn nals_of_kind(entries: Seq<(ParameterSetKind, Seq<u8>)>, wanted: ParameterSetKind) -> Seq<Seq<u8>>
    decreases entries.len(),
{
    if entries.len() == 0 {
        Seq::empty()
    } else {
        let prev = nals_of_kind(entries.drop_last(), wanted);
        if entries.last().0 == wanted {
            prev.push(entries.last().1)
        } else {
            prev
        }
    }
}

/// A parameter set inside the configuration bytes: its kind and byte range.
pub struct ParameterSetRange {
    pub kind: ParameterSetKind,
    pub start: usize,
    pub end: usize,
}

/// The parameter sets of a coded stream, in Annex B: all of them in the order they came (the
/// prefix of every keyframe), with the place of each one.
pub struct H26xStreamParameters {
    configuration: Vec<u8>,
    parameter_sets: Vec<ParameterSetRange>,
    sample_nal_length_size: usize,
    entries: Ghost<Seq<(ParameterSetKind, Seq<u8>)>>,
}

/// Errors of looking up parameter sets.
#[derive(Debug, Clone, Copy, PartialEq, Eq, Structural)]
pub enum ParameterSetError {
    /// The stream holds no parameter set of the requested kind.
    MissingParameterSet(ParameterSetKind),
}

impl H26xStreamParameters {
    /// The parameter sets kept so far, with their kinds, in order.
    pub closed spec fn entries_spec(&self) -> Seq<(ParameterSetKind, Seq<u8>)> {
        self.entries@
    }

    /// The configuration bytes: every kept parameter set with its start code.
    pub closed spec fn configuration_spec(&self) -> Seq<u8> {
        self.configuration@
    }

    /// Size in bytes of the length prefix of each NAL unit in the coded samples.
    pub closed spec fn nal_length_size_spec(&self) -> usize {
        self.sample_nal_length_size
    }

    pub fn sample_nal_length_size(&self) -> (r: usize)
        ensures
            r == self.nal_length_size_spec(),
    {
        self.sample_nal_length_size
    }

    pub closed spec fn wf(&self) -> bool {
        &&& self.configuration@ == annexb_concat(self.entries@.map_values(|e: (ParameterSetKind, Seq<u8>)| e.1))
        &&& self.parameter_sets@.len() == self.entries@.len()
        &&& forall|i: int|
            0 <= i < self.parameter_sets@.len() ==> {
                let r = #[trigger] self.parameter_sets@[i];
                &&& r.kind == self.entries@[i].0
                &&& r.start <= r.end <= self.configuration@.len()
                &&& self.configuration@.subrange(r.start as int, r.end as int) == with_start_code(
                    self.entries@[i].1,
                )
            }
    }

    pub fn new(sample_nal_length_size: usize) -> (r: Self)
        ensures
            r.wf(),
            r.entries_spec() == Seq::<(ParameterSetKind, Seq<u8>)>::empty(),
            r.nal_length_size_spec() == sample_nal_length_size,
    {
        let r = H26xStreamParameters {
            configuration: Vec::new(),
            parameter_sets: Vec::new(),
            sample_nal_length_size,
            entries: Ghost(Seq::empty()),
        };
        assert(r.entries@.map_values(|e: (ParameterSetKind, Seq<u8>)| e.1) =~= Seq::<Seq<u8>>::empty());
        r
    }

    /// All parameter sets in Annex B, in order: what precedes every keyframe.
    pub fn keyframe_prefix(&self) -> (r: &Vec<u8>)
        requires
            self.wf(),
        ensures
            r@ == annexb_concat(self.entries_spec().map_values(|e: (ParameterSetKind, Seq<u8>)| e.1)),
            r@ == self.configuration_spec(),
    {
        &self.configuration
    }

    /// Keeps a NAL unit that is a parameter set of its codec's stream, under the kind its
    /// header gives (see [`spec_parameter_set_kind`]); any other NAL unit is ignored.
    pub fn push_parameter_set(&mut self, codec: StreamCodec, nal: &[u8])
        requires
            old(self).wf(),
            old(self).configuration_spec().len() + 4 + nal@.len() <= usize::MAX,
        ensures
            final(self).wf(),
            final(self).nal_length_size_spec() == old(self).nal_length_size_spec(),
            final(self).entries_spec() == match spec_parameter_set_kind(codec, nal@) {
                Some(k) => old(self).entries_spec().push((k, nal@)),
                None => old(self).entries_spec(),
            },
            final(self).configuration_spec().len() == old(self).configuration_spec().len() + (
            if spec_parameter_set_kind(codec, nal@) is Some {
                4 + nal@.len()
            } else {
                0
            }),
    {
        let kind = parameter_set_kind(codec, nal);
        self.keep_parameter_set(kind, nal);
    }

    /// The parameter sets among `nals`, kept in order with the given sample NAL length size:
    /// the state a stream's format description gives.
    pub fn from_parameter_sets(codec: StreamCodec, sample_nal_length_size: usize, nals: &Vec<Vec<u8>>) -> (r: Self)
        requires
            annexb_len(nals@.map_values(|v: Vec<u8>| v@)) <= usize::MAX,
        ensures
            r.wf(),
            r.nal_length_size_spec() == sample_nal_length_size,
            r.entries_spec() == classified(codec, nals@.map_values(|v: Vec<u8>| v@)),
    {
        let ghost views = nals@.map_values(|v: Vec<u8>| v@);
        let mut state = H26xStreamParameters::new(sample_nal_length_size);
        let mut i: usize = 0;
        while i < nals.len()
            invariant
                i <= nals@.len(),
                views == nals@.map_values(|v: Vec<u8>| v@),
                annexb_len(views) <= usize::MAX,
                state.wf(),
                state.nal_length_size_spec() == sample_nal_length_size,
                state.entries_spec() == classified(codec, views.take(i as int)),
                state.configuration_spec().len() <= annexb_len(views.take(i as int)),
            decreases nals.len() - i,
        {
            proof {
                assert(views.take(i + 1).drop_last() =~= views.take(i as int));
                assert(views.take(i + 1).last() == nals@[i as int]@);
                lemma_annexb_len_prefix(views, i + 1);
            }
            state.push_parameter_set(codec, nals[i].as_slice());
            i = i + 1;
        }
        assert(views.take(nals@.len() as int) =~= views);
        state
    }

    /// Keeps a parameter set NAL unit of the given kind; with no kind the NAL unit is ignored.
    fn keep_parameter_set(&mut self, kind: Option<ParameterSetKind>, nal: &[u8])
        requires
            old(self).wf(),
            old(self).configuration_spec().len() + 4 + nal@.len() <= usize::MAX,
        ensures
            final(self).wf(),
            final(self).nal_length_size_spec() == old(self).nal_length_size_spec(),
            final(self).entries_spec() == match kind {
                Some(k) => old(self).entries_spec().push((k, nal@)),
                None => old(self).entries_spec(),
            },
            final(self).configuration_spec().len() == old(self).configuration_spec().len() + (
            if kind is Some {
                4 + nal@.len()
            } else {
                0
            }),
    {
        if let Some(k) = kind {
            let ghost old_conf = self.configuration@;
            let ghost old_entries = self.entries@;
            let start = self.configuration.len();
            self.configuration.push(0);
            self.configuration.push(0);
            self.configuration.push(0);
            self.configuration.push(1);
            let mut i: usize = 0;
            while i < nal.len()
                invariant
                    i <= nal@.len(),
                    self.configuration@ == old_conf + start_code() + nal@.take(i as int),
                    self.parameter_sets@ == old(self).parameter_sets@,
                    self.entries == old(self).entries,
                    self.sample_nal_length_size == old(self).sample_nal_length_size,
                decreases nal.len() - i,
            {
                self.configuration.push(nal[i]);
                assert(nal@.take(i + 1) =~= nal@.take(i as int).push(nal@[i as int]));
                i = i + 1;
            }
            let end = self.configuration.len();
            self.parameter_sets.push(ParameterSetRange { kind: k, start, end });
            self.entries = Ghost(old_entries.push((k, nal@)));
            proof {
                assert(nal@.take(nal@.len() as int) =~= nal@);
                let new_entries = old_entries.push((k, nal@));
                let f = |e: (ParameterSetKind, Seq<u8>)| e.1;
                assert(new_entries.map_values(f).drop_last() =~= old_entries.map_values(f));
                assert(self.configuration@ =~= old_conf + with_start_code(nal@));
                assert forall|j: int| 0 <= j < self.parameter_sets@.len() implies {
                    let r = #[trigger] self.parameter_sets@[j];
                    &&& r.kind == self.entries@[j].0
                    &&& r.start <= r.end <= self.configuration@.len()
                    &&& self.configuration@.subrange(r.start as int, r.end as int) == with_start_code(
                        self.entries@[j].1,
                    )
                } by {
                    if j < old_entries.len() {
                        let r = self.parameter_sets@[j];
                        assert(r == old(self).parameter_sets@[j]);
                        assert(self.configuration@.subrange(r.start as int, r.end as int)
                            =~= old_conf.subrange(r.start as int, r.end as int));
                    } else {
                        assert(self.configuration@.subrange(start as int, end as int)
                            =~= with_start_code(nal@));
                    }
                }
            }
        }
    }

    /// All parameter sets of the wanted kind, in Annex B and in order; an error when there are
    /// none.
    pub fn parameter_sets_of(&self, wanted: ParameterSetKind) -> (r: Result<Vec<u8>, ParameterSetError>)
        requires
            self.wf(),
        ensures
            match r {
                Ok(bytes) => bytes@ == annexb_concat(nals_of_kind(self.entries_spec(), wanted))
                    && bytes@.len() > 0,
                Err(e) => e == ParameterSetError::MissingParameterSet(wanted) && annexb_concat(
                    nals_of_kind(self.entries_spec(), wanted),
                ).len() == 0,
            },
    {
        let mut output: Vec<u8> = Vec::new();
        let mut i: usize = 0;
        while i < self.parameter_sets.len()
            invariant
                self.wf(),
                i <= self.parameter_sets@.len(),
                output@ == annexb_concat(nals_of_kind(self.entries@.take(i as int), wanted)),
            decreases self.parameter_sets.len() - i,
        {
            let range = &self.parameter_sets[i];
            let ghost prev = nals_of_kind(self.entries@.take(i as int), wanted);
            proof {
                assert(self.entries@.take(i + 1).drop_last() =~= self.entries@.take(i as int));
                assert(self.entries@.take(i + 1).last() == self.entries@[i as int]);
                let r = self.parameter_sets@[i as int];
                assert(self.configuration@.subrange(r.start as int, r.end as int) == with_start_code(
                    self.entries@[i as int].1));
                assert(prev.push(self.entries@[i as int].1).drop_last() =~= prev);
            }
            if range.kind == wanted {
                let mut j = range.start;
                let ghost before = output@;
                while j < range.end
                    invariant
                        range.start <= j <= range.end <= self.configuration@.len(),
                        output@ == before + self.configuration@.subrange(range.start as int, j as int),
                    decreases range.end - j,
                {
                    output.push(self.configuration[j]);
                    assert(self.configuration@.subrange(range.start as int, j + 1)
                        =~= self.configuration@.subrange(range.start as int, j as int).push(
                        self.configuration@[j as int]));
                    j = j + 1;
                }
            }
            proof {
                let r = self.parameter_sets@[i as int];
                if r.kind == wanted {
                    assert(self.configuration@.subrange(r.start as int, r.end as int) == with_start_code(
                        self.entries@[i as int].1));
                }
            }
            i = i + 1;
        }
        assert(self.entries@.take(self.parameter_sets@.len() as int) =~= self.entries@);
        if output.len() == 0 {
            return Err(ParameterSetError::MissingParameterSet(wanted));
        }
        Ok(output)
    }
}


/// `x` as `n` big-endian bytes, most significant first.
pub open spec fn be_bytes(x: nat, n: nat) -> Seq<u8>
    decreases n,
{
    if n == 0 {
        Seq::empty()
    } else {
        be_bytes(x / 256, (n - 1) as nat).push((x % 256) as u8)
    }
}

/// NAL units, each preceded by its length as `n` big-endian bytes.
pub open spec fn length_prefixed(nals: Seq<Seq<u8>>, n: nat) -> Seq<u8>
    decreases nals.len(),
{
    if nals.len() == 0 {
        Seq::empty()
    } else {
        be_bytes(nals[0].len(), n) + nals[0] + length_prefixed(nals.drop_first(), n)
    }
}

proof fn lemma_be_bytes(x: nat, n: nat)
    requires
        x < pow256(n),
    ensures
        be_bytes(x, n).len() == n,
        be_value(be_bytes(x, n)) == x,
    decreases n,
{
    if n > 0 {
        let p = pow256((n - 1) as nat);
        assert(x / 256 < p) by (nonlinear_arith)
            requires
                x < 256 * p,
        ;
        lemma_be_bytes(x / 256, (n - 1) as nat);
        let b = be_bytes(x, n);
        assert(b.drop_last() =~= be_bytes(x / 256, (n - 1) as nat));
        assert(b.last() == (x % 256) as u8);
        assert((x / 256) * 256 + x % 256 == x) by (nonlinear_arith);
    }
}

proof fn lemma_annexb_concat_front(nals: Seq<Seq<u8>>)
    requires
        nals.len() > 0,
    ensures
        annexb_concat(nals) == with_start_code(nals[0]) + annexb_concat(nals.drop_first()),
    decreases nals.len(),
{
    if nals.len() == 1 {
        assert(nals.drop_first() =~= Seq::<Seq<u8>>::empty());
        assert(nals.drop_last() =~= Seq::<Seq<u8>>::empty());
        assert(annexb_concat(nals.drop_last()) == Seq::<u8>::empty());
        assert(annexb_concat(nals.drop_first()) == Seq::<u8>::empty());
        assert(annexb_concat(nals) =~= with_start_code(nals[0]));
    } else {
        lemma_annexb_concat_front(nals.drop_last());
        assert(nals.drop_last().drop_first() =~= nals.drop_first().drop_last());
        assert(nals.drop_first().last() == nals.last());
        assert(nals.drop_last()[0] == nals[0]);
        assert(annexb_concat(nals) =~= with_start_code(nals[0]) + annexb_concat(nals.drop_first()));
    }
}

/// Converting NAL units that carry `n`-byte big-endian length prefixes to Annex B gives back
/// every unit, in order, each behind a start code: nothing is lost, added or reordered.
pub proof fn law_annexb_of_length_prefixed(nals: Seq<Seq<u8>>, n: nat)
    requires
        n >= 1,
        forall|i: int| 0 <= i < nals.len() ==> (#[trigger] nals[i]).len() < pow256(n),
    ensures
        annexb_of(length_prefixed(nals, n), n) == Some(annexb_concat(nals)),
    decreases nals.len(),
{
    let data = length_prefixed(nals, n);
    if nals.len() == 0 {
        assert(data.len() == 0);
    } else {
        let nal = nals[0];
        let rest = nals.drop_first();
        let prefix = be_bytes(nal.len(), n);
        lemma_be_bytes(nal.len(), n);
        law_annexb_of_length_prefixed(rest, n);
        lemma_annexb_concat_front(nals);
        let rest_data = length_prefixed(rest, n);
        assert(data == prefix + nal + rest_data);
        assert(data.take(n as int) =~= prefix);
        assert(data.subrange(n as int, (n + nal.len()) as int) =~= nal);
        assert(data.skip((n + nal.len()) as int) =~= rest_data);
        assert(data.len() >= n);
    }
}

} // verus!
