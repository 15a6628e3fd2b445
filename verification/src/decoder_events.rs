//! How an H.264 decoder front end handles one decoder event before the backend decodes: when
//! its reference state is marked corrupted and where its access units come from.
use vstd::prelude::*;

verus! {

/// The kinds of events a decoder takes.
#[derive(Debug, Clone, Copy, PartialEq, Eq, Structural)]
pub enum DecoderEventKind {
    /// Bytes of the elementary stream to parse.
    DecodeChunk,
    /// An access unit that was parsed elsewhere.
    DecodeParsedFrame,
    /// The current frame's data is complete.
    SignalFrameEnd,
    /// No more data will come for now; everything pending is decoded.
    Flush,
    /// Some data was lost; references can no longer be trusted.
    SignalDataLoss,
}

/// Where the access units of an event come from.
#[derive(Debug, Clone, Copy, PartialEq, Eq, Structural)]
pub enum AccessUnitSource {
    /// The parser parses the chunk.
    ParseChunk,
    /// The event carries the access unit.
    GivenFrame,
    /// The parser hands out what it holds.
    FlushParser,
    /// The reference state is marked corrupted and nothing is decoded.
    MarkDataLoss,
}

/// What handling an event comes to.
#[derive(Debug, Clone, Copy, PartialEq, Eq, Structural)]
pub struct EventPlan {
    /// A submitted frame failed to decode since the last event: the reference state is marked
    /// corrupted first.
    pub mark_corrupted_first: bool,
    pub source: AccessUnitSource,
}

pub open spec fn spec_access_unit_source(kind: DecoderEventKind) -> AccessUnitSource {
    match kind {
        DecoderEventKind::DecodeChunk => AccessUnitSource::ParseChunk,
        DecoderEventKind::DecodeParsedFrame => AccessUnitSource::GivenFrame,
        DecoderEventKind::SignalFrameEnd | DecoderEventKind::Flush => AccessUnitSource::FlushParser,
        DecoderEventKind::SignalDataLoss => AccessUnitSource::MarkDataLoss,
    }
}

/// The plan for an event: the reference state is marked corrupted first exactly when the
/// decode failure flag was set, and the access units come from where the event kind says.
pub open spec fn spec_plan_decoder_event(decode_failed: bool, kind: DecoderEventKind) -> EventPlan {
    EventPlan { mark_corrupted_first: decode_failed, source: spec_access_unit_source(kind) }
}

/// Where the access units of each event come from: a chunk is parsed, a parsed frame is taken
/// as it is, frame end and flush hand out what the parser holds, and data loss decodes nothing
/// and marks the references corrupted.
pub proof fn law_access_unit_sources(kind: DecoderEventKind)
    ensures
        kind == DecoderEventKind::DecodeChunk <==> spec_access_unit_source(kind)
            == AccessUnitSource::ParseChunk,
        kind == DecoderEventKind::DecodeParsedFrame <==> spec_access_unit_source(kind)
            == AccessUnitSource::GivenFrame,
        (kind == DecoderEventKind::SignalFrameEnd || kind == DecoderEventKind::Flush)
            <==> spec_access_unit_source(kind) == AccessUnitSource::FlushParser,
        kind == DecoderEventKind::SignalDataLoss <==> spec_access_unit_source(kind)
            == AccessUnitSource::MarkDataLoss,
{
}

/// Plans the handling of an event; `decode_failed` is the flag the completion side set, which
/// the event consumes.
pub fn plan_decoder_event(decode_failed: bool, kind: DecoderEventKind) -> (r: EventPlan)
    ensures
        r == spec_plan_decoder_event(decode_failed, kind),
        r.mark_corrupted_first == decode_failed,
        r.source == spec_access_unit_source(kind),
{
    let source = match kind {
        DecoderEventKind::DecodeChunk => AccessUnitSource::ParseChunk,
        DecoderEventKind::DecodeParsedFrame => AccessUnitSource::GivenFrame,
        DecoderEventKind::SignalFrameEnd | DecoderEventKind::Flush => AccessUnitSource::FlushParser,
        DecoderEventKind::SignalDataLoss => AccessUnitSource::MarkDataLoss,
    };
    EventPlan { mark_corrupted_first: decode_failed, source }
}

/// Whether an event waits for every pending frame and empties the frame sorter afterwards.
pub fn drains_after(kind: DecoderEventKind) -> (r: bool)
    ensures
        r == (kind == DecoderEventKind::Flush),
{
    match kind {
        DecoderEventKind::Flush => true,
        _ => false,
    }
}

/// What touches the decode failure flag: a decode completion, which sets the flag when the
/// decode failed, or the handling of an event, which takes the flag and clears it.
#[derive(Debug, Clone, Copy, PartialEq, Eq, Structural)]
pub enum FailureStep {
    Completion { failed: bool },
    Event(DecoderEventKind),
}

/// The decode failure flag after `steps`, starting clear.
pub open spec fn failure_flag_after(steps: Seq<FailureStep>) -> bool
    decreases steps.len(),
{
    if steps.len() == 0 {
        false
    } else {
        match steps.last() {
            FailureStep::Completion { failed } => failure_flag_after(steps.drop_last()) || failed,
            FailureStep::Event(_) => false,
        }
    }
}

/// No event among the steps after position `j`.
pub open spec fn no_event_after(steps: Seq<FailureStep>, j: int) -> bool {
    forall|k: int| j < k < steps.len() ==> !(#[trigger] steps[k] is Event)
}

/// Some decode failed after the last event of `steps` (or at all, when there was no event).
pub open spec fn failed_since_last_event(steps: Seq<FailureStep>) -> bool {
    exists|j: int|
        0 <= j < steps.len() && #[trigger] steps[j] == (FailureStep::Completion { failed: true })
            && no_event_after(steps, j)
}

/// Each decode failure is consumed by exactly one event: an event marks the reference state
/// corrupted before its access units are handled exactly when a decode failed since the event
/// before it, and the event after it marks nothing unless another decode fails in between. A
/// data loss event always marks the references corrupted and decodes nothing.
pub proof fn law_decode_failure_consumed_by_one_event(
    steps: Seq<FailureStep>,
    kind: DecoderEventKind,
    next: DecoderEventKind,
)
    ensures
        spec_plan_decoder_event(failure_flag_after(steps), kind).mark_corrupted_first
            == failed_since_last_event(steps),
        !spec_plan_decoder_event(
            failure_flag_after(steps.push(FailureStep::Event(kind))),
            next,
        ).mark_corrupted_first,
        kind == DecoderEventKind::SignalDataLoss ==> spec_plan_decoder_event(
            failure_flag_after(steps),
            kind,
        ).source == AccessUnitSource::MarkDataLoss,
{
    lemma_failure_flag(steps);
    let pushed = steps.push(FailureStep::Event(kind));
    assert(pushed.drop_last() =~= steps);
}

proof fn lemma_failure_flag(steps: Seq<FailureStep>)
    ensures
        failure_flag_after(steps) == failed_since_last_event(steps),
    decreases steps.len(),
{
    if steps.len() > 0 {
        let prev = steps.drop_last();
        lemma_failure_flag(prev);
        let n = steps.len() - 1;
        if steps.last() is Event {
            lemma_event_ends_failures(steps);
        } else if steps.last() == (FailureStep::Completion { failed: true }) {
            assert(steps[n] == (FailureStep::Completion { failed: true }));
            assert(no_event_after(steps, n));
        } else {
            lemma_quiet_completion(steps);
        }
    }
}

proof fn lemma_event_ends_failures(steps: Seq<FailureStep>)
    requires
        steps.len() > 0,
        steps.last() is Event,
    ensures
        !failed_since_last_event(steps),
{
    let n = steps.len() - 1;
    if failed_since_last_event(steps) {
        let j = choose|j: int|
            0 <= j < steps.len() && #[trigger] steps[j] == (FailureStep::Completion { failed: true })
                && no_event_after(steps, j);
        assert(j != n);
        assert(steps[n] is Event);
    }
}

proof fn lemma_quiet_completion(steps: Seq<FailureStep>)
    requires
        steps.len() > 0,
        steps.last() == (FailureStep::Completion { failed: false }),
    ensures
        failed_since_last_event(steps) == failed_since_last_event(steps.drop_last()),
{
    let prev = steps.drop_last();
    let n = steps.len() - 1;
    if failed_since_last_event(prev) {
        let j = choose|j: int|
            0 <= j < prev.len() && #[trigger] prev[j] == (FailureStep::Completion { failed: true })
                && no_event_after(prev, j);
        assert(steps[j] == prev[j]);
        assert forall|k: int| j < k < steps.len() implies !(#[trigger] steps[k] is Event) by {
            if k < n {
                assert(steps[k] == prev[k]);
            }
        }
        assert(no_event_after(steps, j));
    }
    if failed_since_last_event(steps) {
        let j = choose|j: int|
            0 <= j < steps.len() && #[trigger] steps[j] == (FailureStep::Completion { failed: true })
                && no_event_after(steps, j);
        assert(j != n);
        assert(prev[j] == steps[j]);
        assert forall|k: int| j < k < prev.len() implies !(#[trigger] prev[k] is Event) by {
            assert(prev[k] == steps[k]);
        }
        assert(no_event_after(prev, j));
    }
}

/// `kVTDecodeFrame_EnableAsynchronousDecompression`.
pub const DECODE_FRAME_ENABLE_ASYNCHRONOUS_DECOMPRESSION: u32 = 1;

/// VideoToolbox decodes asynchronously exactly when submissions may be in flight.
pub fn decode_frame_flags(max_in_flight: u64) -> (r: u32)
    ensures
        max_in_flight > 0 ==> r == DECODE_FRAME_ENABLE_ASYNCHRONOUS_DECOMPRESSION,
        max_in_flight == 0 ==> r == 0,
{
    if max_in_flight > 0 {
        DECODE_FRAME_ENABLE_ASYNCHRONOUS_DECOMPRESSION
    } else {
        0
    }
}

} // verus!
