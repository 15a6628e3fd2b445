use gpu_video::decode_order::{classify_decode_output, CompletionKind, Converted, DecodeCompletionState};
use gpu_video::decoder_events::{
    decode_frame_flags, drains_after, plan_decoder_event, AccessUnitSource, DecoderEventKind,
    EventPlan,
};
use gpu_video::sync_state::{
    max_wait_value, partition_finished, throttle_plan, SemaphoreState, SemaphoreWaitValue,
    WaitDecision, WaitRequest,
};

#[test]
fn decode_outputs_are_classified() {
    assert_eq!(classify_decode_output(-1, true, false), CompletionKind::Failed);
    assert_eq!(classify_decode_output(0, true, true), CompletionKind::Frame);
    assert_eq!(classify_decode_output(0, false, true), CompletionKind::Dropped);
    assert_eq!(classify_decode_output(0, false, false), CompletionKind::Failed);
}

#[test]
fn frames_leave_in_submission_order() {
    let mut state: DecodeCompletionState<&str> = DecodeCompletionState::new();
    let a = state.try_allocate_submission_index(0).unwrap();
    let b = state.try_allocate_submission_index(0).unwrap();
    let c = state.try_allocate_submission_index(0).unwrap();
    assert_eq!((a, b, c), (0, 1, 2));
    assert_eq!(state.in_flight(), 3);
    assert!(state.complete(c, Converted::Frame("c")).is_empty());
    assert!(state.complete(b, Converted::Dropped).is_empty());
    assert_eq!(state.complete(a, Converted::Frame("a")), vec!["a", "c"]);
    assert_eq!(state.in_flight(), 0);
    assert!(!state.decode_failed());
}

#[test]
fn failures_are_flagged_once() {
    let mut state: DecodeCompletionState<u32> = DecodeCompletionState::new();
    let a = state.try_allocate_submission_index(1).unwrap();
    assert_eq!(state.try_allocate_submission_index(1), None);
    assert!(state.complete(a, Converted::Failed).is_empty());
    assert!(state.decode_failed());
    assert!(state.take_decode_failed());
    assert!(!state.take_decode_failed());
    assert_eq!(state.try_allocate_submission_index(1), Some(1));
}

#[test]
fn a_decode_failure_marks_exactly_the_next_event() {
    let mut state: DecodeCompletionState<u32> = DecodeCompletionState::new();
    let a = state.try_allocate_submission_index(0).unwrap();
    let b = state.try_allocate_submission_index(0).unwrap();
    assert!(state.complete(a, Converted::Failed).is_empty());
    let first = plan_decoder_event(state.take_decode_failed(), DecoderEventKind::DecodeChunk);
    assert!(first.mark_corrupted_first);
    assert_eq!(state.complete(b, Converted::Frame(7)), vec![7]);
    let second = plan_decoder_event(state.take_decode_failed(), DecoderEventKind::DecodeChunk);
    assert!(!second.mark_corrupted_first);
}

#[test]
fn decoder_events_are_planned() {
    assert_eq!(
        plan_decoder_event(true, DecoderEventKind::DecodeChunk),
        EventPlan { mark_corrupted_first: true, source: AccessUnitSource::ParseChunk }
    );
    assert_eq!(plan_decoder_event(false, DecoderEventKind::Flush).source, AccessUnitSource::FlushParser);
    assert_eq!(plan_decoder_event(false, DecoderEventKind::SignalFrameEnd).source, AccessUnitSource::FlushParser);
    assert_eq!(plan_decoder_event(false, DecoderEventKind::DecodeParsedFrame).source, AccessUnitSource::GivenFrame);
    assert_eq!(plan_decoder_event(false, DecoderEventKind::SignalDataLoss).source, AccessUnitSource::MarkDataLoss);
    assert!(drains_after(DecoderEventKind::Flush));
    assert!(!drains_after(DecoderEventKind::SignalFrameEnd));
    assert_eq!(decode_frame_flags(0), 0);
    assert_eq!(decode_frame_flags(4), 1);
}

#[test]
fn semaphore_values_advance_and_waits_are_remembered() {
    let mut s: SemaphoreState<&str> = SemaphoreState::new();
    assert_eq!(s.signal_value, SemaphoreWaitValue(1));
    assert_eq!(s.wait_decision(SemaphoreWaitValue(1)), WaitDecision::Unsignaled);
    s.mark_submitted("decode");
    assert_eq!(s.signal_value, SemaphoreWaitValue(2));
    assert_eq!(s.wait_for_all_value(), Some(SemaphoreWaitValue(1)));
    assert_eq!(s.wait_decision(SemaphoreWaitValue(1)), WaitDecision::Wait);
    assert_eq!(s.wait_decision(SemaphoreWaitValue(2)), WaitDecision::Unsignaled);
    s.mark_waited(SemaphoreWaitValue(1));
    assert_eq!(s.wait_for_all_value(), None);
    assert_eq!(s.wait_decision(SemaphoreWaitValue(1)), WaitDecision::AlreadyWaited);
    s.mark_waited(SemaphoreWaitValue(0));
    assert_eq!(s.last_waited_for, Some(SemaphoreWaitValue(1)));
}

#[test]
fn finished_requests_are_split_off_in_order() {
    let requests = vec![
        WaitRequest { semaphore: 1, wait_for: SemaphoreWaitValue(5), payload: "a" },
        WaitRequest { semaphore: 2, wait_for: SemaphoreWaitValue(1), payload: "b" },
        WaitRequest { semaphore: 1, wait_for: SemaphoreWaitValue(3), payload: "c" },
        WaitRequest { semaphore: 3, wait_for: SemaphoreWaitValue(1), payload: "d" },
    ];
    let (finished, unfinished) = partition_finished(requests, &vec![(1, 4), (2, 1)]);
    let finished: Vec<&str> = finished.iter().map(|r| r.payload).collect();
    let unfinished: Vec<&str> = unfinished.iter().map(|r| r.payload).collect();
    assert_eq!(finished, vec!["b", "c"]);
    assert_eq!(unfinished, vec!["a", "d"]);
}

#[test]
fn throttling_waits_for_the_oldest_submissions() {
    let mut in_flight = vec![1, 2, 3, 4, 5];
    assert_eq!(throttle_plan(&mut in_flight, 2, 2), vec![3]);
    assert_eq!(in_flight, vec![4, 5]);
    let mut in_flight = vec![7, 8];
    assert_eq!(throttle_plan(&mut in_flight, 0, 4), Vec::<u64>::new());
    assert_eq!(in_flight, vec![7, 8]);
    assert_eq!(max_wait_value(&vec![3, 9, 4]), Some(9));
    assert_eq!(max_wait_value(&vec![]), None);
}
