use vstd::prelude::*;

verus! {

/// What the platform decoder reported for one submission, after the decoded image has been
/// converted into the output representation `T`.
pub enum Converted<T> {
    Frame(T),
    Dropped,
    Failed,
}

/// The three outcomes a decoder output callback can report.
#[derive(Debug, Clone, Copy, PartialEq, Eq, Structural)]
pub enum CompletionKind {
    Frame,
    Dropped,
    Failed,
}

/// Classifies one decoder output callback: a non-zero status is a failure, an image is a frame,
/// no image with the frame-dropped flag is a drop, and no image without the flag is a failure.
pub fn classify_decode_output(status: i32, has_image: bool, frame_dropped: bool) -> (r:
    CompletionKind)
    ensures
        status != 0 ==> r == CompletionKind::Failed,
        status == 0 && has_image ==> r == CompletionKind::Frame,
        status == 0 && !has_image && frame_dropped ==> r == CompletionKind::Dropped,
        status == 0 && !has_image && !frame_dropped ==> r == CompletionKind::Failed,
{
    if status != 0 {
        CompletionKind::Failed
    } else if has_image {
        CompletionKind::Frame
    } else if frame_dropped {
        CompletionKind::Dropped
    } else {
        CompletionKind::Failed
    }
}

/// Number of leading slots that already hold a completion.
pub open spec fn leading_completed<T>(slots: Seq<Option<Converted<T>>>) -> nat
    decreases slots.len(),
{
    if slots.len() == 0 || slots[0] is None {
        0
    } else {
        1 + leading_completed(slots.drop_first())
    }
}

/// The frames among a sequence of completions, in order; drops and failures are skipped.
pub open spec fn frames_of<T>(completions: Seq<Converted<T>>) -> Seq<T>
    decreases completions.len(),
{
    if completions.len() == 0 {
        Seq::empty()
    } else {
        match completions[0] {
            Converted::Frame(f) => seq![f] + frames_of(completions.drop_first()),
            _ => frames_of(completions.drop_first()),
        }
    }
}

/// Whether a sequence of completions holds a failure.
pub open spec fn has_failure<T>(completions: Seq<Converted<T>>) -> bool {
    exists|i: int| 0 <= i < completions.len() && completions[i] is Failed
}

/// The completions held by a run of filled slots.
pub open spec fn unwrap_all<T>(slots: Seq<Option<Converted<T>>>) -> Seq<Converted<T>> {
    slots.map_values(|s: Option<Converted<T>>| s.unwrap())
}

/// Keeps completions of decode submissions until every earlier submission has completed, so
/// frames leave in submission order although the decoder reports them in any order.
///
/// Slot `i` stands for submission `next_to_emit + i`; it is `None` while that submission is still
/// running.
pub struct DecodeCompletionState<T> {
    next_submission_index: u64,
    next_to_emit: u64,
    slots: Vec<Option<Converted<T>>>,
    decode_failed: bool,
}

impl<T> DecodeCompletionState<T> {
    pub closed spec fn next_submission_index_spec(&self) -> u64 {
        self.next_submission_index
    }

    pub closed spec fn next_to_emit_spec(&self) -> u64 {
        self.next_to_emit
    }

    pub closed spec fn slots_spec(&self) -> Seq<Option<Converted<T>>> {
        self.slots@
    }

    pub closed spec fn decode_failed_spec(&self) -> bool {
        self.decode_failed
    }

    /// One slot per submission that was handed out and not yet emitted.
    pub closed spec fn wf(&self) -> bool {
        &&& self.next_to_emit <= self.next_submission_index
        &&& self.slots@.len() == self.next_submission_index - self.next_to_emit
    }

    pub fn new() -> (r: Self)
        ensures
            r.wf(),
            r.next_submission_index_spec() == 0,
            r.next_to_emit_spec() == 0,
            r.slots_spec() == Seq::<Option<Converted<T>>>::empty(),
            !r.decode_failed_spec(),
    {
        DecodeCompletionState {
            next_submission_index: 0,
            next_to_emit: 0,
            slots: Vec::new(),
            decode_failed: false,
        }
    }

    /// Number of submissions handed out whose completion has not been emitted yet.
    pub fn in_flight(&self) -> (r: u64)
        requires
            self.wf(),
        ensures
            r == self.next_submission_index_spec() - self.next_to_emit_spec(),
            r == self.slots_spec().len(),
    {
        self.next_submission_index - self.next_to_emit
    }

    pub fn decode_failed(&self) -> (r: bool)
        ensures
            r == self.decode_failed_spec(),
    {
        self.decode_failed
    }

    /// Reads and clears the decode failure flag.
    pub fn take_decode_failed(&mut self) -> (r: bool)
        ensures
            r == old(self).decode_failed_spec(),
            !final(self).decode_failed_spec(),
            final(self).next_submission_index_spec() == old(self).next_submission_index_spec(),
            final(self).next_to_emit_spec() == old(self).next_to_emit_spec(),
            final(self).slots_spec() == old(self).slots_spec(),
    {
        let r = self.decode_failed;
        self.decode_failed = false;
        r
    }

    /// Hands out the index of the next submission, unless `max_in_flight` (when non-zero)
    /// submissions are already running, in which case the caller has to wait for a completion.
    pub fn try_allocate_submission_index(&mut self, max_in_flight: u64) -> (r: Option<u64>)
        requires
            old(self).wf(),
            old(self).next_submission_index_spec() < u64::MAX,
        ensures
            final(self).wf(),
            final(self).next_to_emit_spec() == old(self).next_to_emit_spec(),
            final(self).decode_failed_spec() == old(self).decode_failed_spec(),
            (max_in_flight > 0 && old(self).slots_spec().len() >= max_in_flight) <==> r is None,
            max_in_flight > 0 && old(self).slots_spec().len() <= max_in_flight
                ==> final(self).slots_spec().len() <= max_in_flight,
            r is None ==> *final(self) == *old(self),
            r matches Some(i) ==> {
                &&& i == old(self).next_submission_index_spec()
                &&& final(self).next_submission_index_spec() == i + 1
                &&& final(self).slots_spec() == old(self).slots_spec().push(None)
            },
    {
        if max_in_flight > 0 && self.next_submission_index - self.next_to_emit >= max_in_flight {
            return None;
        }
        let index = self.next_submission_index;
        self.next_submission_index = index + 1;
        self.slots.push(None);
        Some(index)
    }

    /// Records the completion of submission `submission_index` and returns the frames that are
    /// now emittable: the completions of the longest run of completed submissions that starts at
    /// the oldest running one, in submission order. Drops are skipped; a failure among them sets
    /// the decode failure flag.
    pub fn complete(&mut self, submission_index: u64, converted: Converted<T>) -> (r: Vec<T>)
        requires
            old(self).wf(),
            old(self).next_to_emit_spec() <= submission_index,
            submission_index < old(self).next_submission_index_spec(),
            old(self).slots_spec()[submission_index - old(self).next_to_emit_spec()] is None,
        ensures
            final(self).wf(),
            ({
                let filled = old(self).slots_spec().update(
                    submission_index - old(self).next_to_emit_spec(),
                    Some(converted),
                );
                let k = leading_completed(filled);
                let emitted = unwrap_all(filled.take(k as int));
                &&& final(self).next_to_emit_spec() == old(self).next_to_emit_spec() + k
                &&& forall|i: int| 0 <= i < k ==> filled[i] is Some
                &&& final(self).slots_spec() == filled.skip(k as int)
                &&& r@ == frames_of(emitted)
                &&& final(self).decode_failed_spec() == (old(self).decode_failed_spec()
                    || has_failure(emitted))
            }),
            final(self).next_submission_index_spec() == old(self).next_submission_index_spec(),
            final(self).slots_spec().len() == 0 || final(self).slots_spec()[0] is None,
    {
        let pos = (submission_index - self.next_to_emit) as usize;
        self.slots.set(pos, Some(converted));
        let ghost filled = self.slots@;
        let ghost start = self.next_to_emit;
        let ghost failed0 = self.decode_failed;
        let mut frames: Vec<T> = Vec::new();
        let mut k: usize = 0;
        assert(filled.skip(0) =~= filled);
        assert(filled.len() == self.slots.len());
        while self.slots.len() > 0 && self.slots[0].is_some()
            invariant
                self.wf(),
                self.next_submission_index == old(self).next_submission_index,
                k <= filled.len(),
                filled.len() <= usize::MAX,
                self.next_to_emit == start + k,
                self.slots@ == filled.skip(k as int),
                leading_completed(filled) == k + leading_completed(filled.skip(k as int)),
                forall|i: int| 0 <= i < k ==> filled[i] is Some,
                frames@ == frames_of(unwrap_all(filled.take(k as int))),
                self.decode_failed == (failed0 || has_failure(unwrap_all(filled.take(k as int)))),
            decreases self.slots.len(),
        {
            let slot = self.slots.remove(0);
            proof {
                lemma_leading_step(filled.skip(k as int));
                assert(filled.skip(k as int).drop_first() =~= filled.skip(k + 1));
                lemma_take_step(filled, k as int);
            }
            self.next_to_emit = self.next_to_emit + 1;
            match slot {
                Some(Converted::Frame(f)) => {
                    frames.push(f);
                },
                Some(Converted::Dropped) => {},
                Some(Converted::Failed) => {
                    self.decode_failed = true;
                },
                None => {},
            }
            k = k + 1;
        }
        proof {
            lemma_leading_stop(filled.skip(k as int));
        }
        frames
    }
}

proof fn lemma_leading_step<T>(s: Seq<Option<Converted<T>>>)
    requires
        s.len() > 0,
        s[0] is Some,
    ensures
        leading_completed(s) == 1 + leading_completed(s.drop_first()),
{
}

proof fn lemma_leading_stop<T>(s: Seq<Option<Converted<T>>>)
    requires
        s.len() == 0 || s[0] is None,
    ensures
        leading_completed(s) == 0,
{
}

/// Extending a run of filled slots by one filled slot extends the emitted frames and failures
/// accordingly.
proof fn lemma_take_step<T>(filled: Seq<Option<Converted<T>>>, k: int)
    requires
        0 <= k < filled.len(),
        filled[k] is Some,
    ensures
        unwrap_all(filled.take(k + 1)) == unwrap_all(filled.take(k)).push(filled[k].unwrap()),
        frames_of(unwrap_all(filled.take(k + 1))) == frames_of(unwrap_all(filled.take(k)))
            + match filled[k].unwrap() {
            Converted::Frame(f) => seq![f],
            _ => Seq::<T>::empty(),
        },
        has_failure(unwrap_all(filled.take(k + 1))) == (has_failure(unwrap_all(filled.take(k)))
            || filled[k].unwrap() is Failed),
{
    let a = unwrap_all(filled.take(k));
    let b = unwrap_all(filled.take(k + 1));
    assert(b =~= a.push(filled[k].unwrap()));
    lemma_frames_of_push(a, filled[k].unwrap());
    if has_failure(b) {
        let i = choose|i: int| 0 <= i < b.len() && b[i] is Failed;
        if i < a.len() {
            assert(a[i] is Failed);
        }
    }
    if has_failure(a) {
        let i = choose|i: int| 0 <= i < a.len() && a[i] is Failed;
        assert(b[i] is Failed);
    }
    if filled[k].unwrap() is Failed {
        assert(b[a.len() as int] is Failed);
    }
}

proof fn lemma_frames_of_push<T>(s: Seq<Converted<T>>, c: Converted<T>)
    ensures
        frames_of(s.push(c)) == frames_of(s) + match c {
            Converted::Frame(f) => seq![f],
            _ => Seq::<T>::empty(),
        },
    decreases s.len(),
{
    if s.len() == 0 {
        assert(s.push(c).drop_first() =~= Seq::<Converted<T>>::empty());
        assert(frames_of(Seq::<Converted<T>>::empty()) =~= Seq::<T>::empty());
        match c {
            Converted::Frame(f) => {
                assert(seq![f] + Seq::<T>::empty() =~= seq![f]);
            },
            _ => {},
        }
    } else {
        assert(s.push(c).drop_first() =~= s.drop_first().push(c));
        lemma_frames_of_push(s.drop_first(), c);
        match s[0] {
            Converted::Frame(f) => {
                assert(seq![f] + (frames_of(s.drop_first()) + match c {
                    Converted::Frame(g) => seq![g],
                    _ => Seq::<T>::empty(),
                }) =~= (seq![f] + frames_of(s.drop_first())) + match c {
                    Converted::Frame(g) => seq![g],
                    _ => Seq::<T>::empty(),
                });
            },
            _ => {},
        }
    }
}


/// Emitting completions in two successive batches hands out the same frames, in the same
/// order, as emitting the joined run at once: the frames leave in submission order whatever
/// the batching.
pub proof fn law_frames_of_concat<T>(first: Seq<Converted<T>>, second: Seq<Converted<T>>)
    ensures
        frames_of(first + second) == frames_of(first) + frames_of(second),
    decreases first.len(),
{
    if first.len() == 0 {
        assert(first + second =~= second);
        assert(frames_of(first) == Seq::<T>::empty());
        assert(frames_of(first) + frames_of(second) =~= frames_of(second));
    } else {
        law_frames_of_concat(first.drop_first(), second);
        assert((first + second).drop_first() =~= first.drop_first() + second);
        assert((first + second)[0] == first[0]);
        match first[0] {
            Converted::Frame(f) => {
                assert(frames_of(first + second) =~= seq![f] + frames_of(first.drop_first() + second));
                assert(frames_of(first) =~= seq![f] + frames_of(first.drop_first()));
                assert(frames_of(first + second) =~= frames_of(first) + frames_of(second));
            },
            _ => {
                assert(frames_of(first + second) == frames_of(first.drop_first() + second));
                assert(frames_of(first) == frames_of(first.drop_first()));
            },
        }
    }
}

/// A failure anywhere in two successive batches is a failure in the joined run, and the
/// reverse.
pub proof fn law_has_failure_concat<T>(first: Seq<Converted<T>>, second: Seq<Converted<T>>)
    ensures
        has_failure(first + second) == (has_failure(first) || has_failure(second)),
{
    let joined = first + second;
    if has_failure(joined) {
        let i = choose|i: int| 0 <= i < joined.len() && joined[i] is Failed;
        if i < first.len() {
            assert(first[i] is Failed);
        } else {
            assert(second[i - first.len()] is Failed);
        }
    }
    if has_failure(first) {
        let i = choose|i: int| 0 <= i < first.len() && first[i] is Failed;
        assert(joined[i] is Failed);
    }
    if has_failure(second) {
        let i = choose|i: int| 0 <= i < second.len() && second[i] is Failed;
        assert(joined[first.len() + i] is Failed);
    }
}

} // verus!
