use vstd::prelude::*;

verus! {

/// A value of a timeline semaphore that a submission signals when it finishes.
#[derive(Debug, Clone, Copy, PartialEq, Eq, Structural)]
pub struct SemaphoreWaitValue(pub u64);

/// The last submission signals `value`; `state` says what it was for.
pub struct TrackerWait<S> {
    pub value: SemaphoreWaitValue,
    pub state: S,
}

/// Bookkeeping of a timeline semaphore shared by a chain of submissions: the value the next
/// submission signals, the last submission still to be waited for, and the highest value that
/// was already waited for.
pub struct SemaphoreState<S> {
    pub signal_value: SemaphoreWaitValue,
    pub wait_for: Option<TrackerWait<S>>,
    pub last_waited_for: Option<SemaphoreWaitValue>,
}

/// What a wait for a semaphore value has to do.
#[derive(Debug, Clone, Copy, PartialEq, Eq, Structural)]
pub enum WaitDecision {
    /// The value was reached by an earlier wait; nothing to do.
    AlreadyWaited,
    /// Block on the semaphore until it reaches the value.
    Wait,
    /// No submission that was made signals this value.
    Unsignaled,
}

/// The highest waited value once `value` was waited for.
pub open spec fn raised_last_waited(last: Option<SemaphoreWaitValue>, value: SemaphoreWaitValue) -> Option<
    SemaphoreWaitValue,
> {
    Some(
        match last {
            Some(old_value) => if old_value.0 >= value.0 {
                old_value
            } else {
                value
            },
            None => value,
        },
    )
}

/// What waiting for `value` takes, given the highest value already waited for and the pending
/// submission: nothing when a value at least as high was already waited for; an error when no
/// pending submission signals a value that high; a blocking wait otherwise.
pub open spec fn spec_wait_decision<S>(
    last: Option<SemaphoreWaitValue>,
    wait_for: Option<TrackerWait<S>>,
    value: SemaphoreWaitValue,
) -> WaitDecision {
    if last matches Some(l) && l.0 >= value.0 {
        WaitDecision::AlreadyWaited
    } else {
        match wait_for {
            Some(w) => if w.value.0 < value.0 {
                WaitDecision::Unsignaled
            } else {
                WaitDecision::Wait
            },
            None => WaitDecision::Unsignaled,
        }
    }
}

/// Waiting never lowers the highest waited value.
pub proof fn law_last_waited_only_grows(last: Option<SemaphoreWaitValue>, value: SemaphoreWaitValue)
    ensures
        raised_last_waited(last, value) matches Some(now) && now.0 >= value.0 && (last matches Some(
            before,
        ) ==> now.0 >= before.0),
{
}

/// Once a value was waited for, waiting for it or any lower value needs no wait, whatever is
/// pending.
pub proof fn law_waited_value_needs_no_wait<S>(
    last: Option<SemaphoreWaitValue>,
    waited: SemaphoreWaitValue,
    wait_for: Option<TrackerWait<S>>,
    value: SemaphoreWaitValue,
)
    requires
        value.0 <= waited.0,
    ensures
        spec_wait_decision(raised_last_waited(last, waited), wait_for, value)
            == WaitDecision::AlreadyWaited,
{
}

/// Right after a submission, waiting for the value it signals blocks unless that value was
/// already waited for.
pub proof fn law_submitted_value_is_awaited<S>(last: Option<SemaphoreWaitValue>, signal_value: SemaphoreWaitValue, state: S)
    requires
        !(last matches Some(l) && l.0 >= signal_value.0),
    ensures
        spec_wait_decision(last, Some(TrackerWait { value: signal_value, state }), signal_value)
            == WaitDecision::Wait,
{
}

impl<S> SemaphoreState<S> {
    /// A semaphore whose first submission signals 1.
    pub fn new() -> (r: Self)
        ensures
            r.signal_value.0 == 1,
            r.wait_for is None,
            r.last_waited_for is None,
    {
        SemaphoreState {
            signal_value: SemaphoreWaitValue(1),
            wait_for: None,
            last_waited_for: None,
        }
    }

    /// Records that the semaphore reached `value`: the pending wait is cleared when it is the one
    /// for this value, and the highest waited value is raised to `value`.
    pub fn mark_waited(&mut self, value: SemaphoreWaitValue)
        ensures
            final(self).signal_value == old(self).signal_value,
            match old(self).wait_for {
                Some(w) => if w.value == value {
                    final(self).wait_for is None
                } else {
                    final(self).wait_for == old(self).wait_for
                },
                None => final(self).wait_for is None,
            },
            final(self).last_waited_for == raised_last_waited(old(self).last_waited_for, value),
    {
        let clear = match &self.wait_for {
            Some(wait_for) => wait_for.value.0 == value.0,
            None => false,
        };
        if clear {
            self.wait_for = None;
        }
        match self.last_waited_for {
            Some(old_value) => {
                if old_value.0 < value.0 {
                    self.last_waited_for = Some(value);
                }
            },
            None => {
                self.last_waited_for = Some(value);
            },
        }
    }

    /// Records a submission that signals the current signal value; the next one signals the
    /// value after it.
    pub fn mark_submitted(&mut self, new_state: S)
        requires
            old(self).signal_value.0 < u64::MAX,
        ensures
            final(self).signal_value.0 == old(self).signal_value.0 + 1,
            final(self).wait_for matches Some(w) && w.value == old(self).signal_value
                && w.state == new_state,
            final(self).last_waited_for == old(self).last_waited_for,
    {
        let value = self.signal_value;
        self.wait_for = Some(TrackerWait { value, state: new_state });
        self.signal_value = SemaphoreWaitValue(value.0 + 1);
    }

    /// The value a wait for everything submitted so far has to reach, if anything is pending.
    pub fn wait_for_all_value(&self) -> (r: Option<SemaphoreWaitValue>)
        ensures
            r == match self.wait_for {
                Some(w) => Some(w.value),
                None => None,
            },
    {
        match &self.wait_for {
            Some(w) => Some(w.value),
            None => None,
        }
    }

    /// Decides what waiting for `value` takes: nothing when a value at least as high was already
    /// waited for; an error when no pending submission signals a value that high; a blocking wait
    /// otherwise.
    pub fn wait_decision(&self, value: SemaphoreWaitValue) -> (r: WaitDecision)
        ensures
            r == spec_wait_decision(self.last_waited_for, self.wait_for, value),
    {
        if let Some(last) = &self.last_waited_for {
            if last.0 >= value.0 {
                return WaitDecision::AlreadyWaited;
            }
        }
        match &self.wait_for {
            Some(w) => {
                if w.value.0 < value.0 {
                    WaitDecision::Unsignaled
                } else {
                    WaitDecision::Wait
                }
            },
            None => WaitDecision::Unsignaled,
        }
    }
}

/// A request to run `payload` once the semaphore `semaphore` reaches `wait_for`.
pub struct WaitRequest<P> {
    pub semaphore: u64,
    pub wait_for: SemaphoreWaitValue,
    pub payload: P,
}

/// The counter value observed for `semaphore` in `observed`, the first entry for it.
pub open spec fn observed_value(observed: Seq<(u64, u64)>, semaphore: u64) -> Option<u64>
    decreases observed.len(),
{
    if observed.len() == 0 {
        None
    } else if observed[0].0 == semaphore {
        Some(observed[0].1)
    } else {
        observed_value(observed.drop_first(), semaphore)
    }
}

/// Whether a request is finished given the observed counter values.
pub open spec fn request_finished<P>(observed: Seq<(u64, u64)>, r: WaitRequest<P>) -> bool {
    observed_value(observed, r.semaphore) matches Some(v) && v >= r.wait_for.0
}

fn lookup_observed(observed: &Vec<(u64, u64)>, semaphore: u64) -> (r: Option<u64>)
    ensures
        r == observed_value(observed@, semaphore),
{
    let mut i: usize = 0;
    assert(observed@.skip(0) =~= observed@);
    while i < observed.len()
        invariant
            i <= observed@.len(),
            observed_value(observed@, semaphore) == observed_value(observed@.skip(i as int), semaphore),
        decreases observed.len() - i,
    {
        assert(observed@.skip(i as int).drop_first() =~= observed@.skip(i + 1));
        if observed[i].0 == semaphore {
            return Some(observed[i].1);
        }
        i = i + 1;
    }
    None
}

/// Splits pending wait requests into the finished and the unfinished ones, each in the original
/// order, using one observed counter value per semaphore so that every request of a semaphore is
/// judged against the same value.
pub fn partition_finished<P>(requests: Vec<WaitRequest<P>>, observed: &Vec<(u64, u64)>) -> (r: (
    Vec<WaitRequest<P>>,
    Vec<WaitRequest<P>>,
))
    ensures
        r.0@ == requests@.filter(|q: WaitRequest<P>| request_finished(observed@, q)),
        r.1@ == requests@.filter(|q: WaitRequest<P>| !request_finished(observed@, q)),
{
    let ghost all = requests@;
    let mut finished: Vec<WaitRequest<P>> = Vec::new();
    let mut unfinished: Vec<WaitRequest<P>> = Vec::new();
    let mut rest = requests;
    let ghost n = all.len();
    assert(rest@ =~= all.skip(0));
    assert(n == rest.len());
    let mut i: usize = 0;
    while rest.len() > 0
        invariant
            n == all.len(),
            n <= usize::MAX,
            rest@.len() + i == n,
            rest@ =~= all.skip(i as int),
            finished@ == all.take(i as int).filter(|q: WaitRequest<P>| request_finished(observed@, q)),
            unfinished@ == all.take(i as int).filter(|q: WaitRequest<P>| !request_finished(observed@, q)),
        decreases rest.len(),
    {
        let request = rest.remove(0);
        proof {
            assert(request == all[i as int]);
            assert(all.take(i + 1) =~= all.take(i as int).push(all[i as int]));
            lemma_filter_push(all.take(i as int), |q: WaitRequest<P>| request_finished(observed@, q), all[i as int]);
            lemma_filter_push(all.take(i as int), |q: WaitRequest<P>| !request_finished(observed@, q), all[i as int]);
            assert(rest@ =~= all.skip(i + 1));
        }
        let value = lookup_observed(observed, request.semaphore);
        let done = match value {
            Some(v) => v >= request.wait_for.0,
            None => false,
        };
        if done {
            finished.push(request);
        } else {
            unfinished.push(request);
        }
        i = i + 1;
    }
    assert(all.take(n as int) =~= all);
    (finished, unfinished)
}

pub proof fn lemma_filter_push<A>(s: Seq<A>, pred: spec_fn(A) -> bool, x: A)
    ensures
        s.push(x).filter(pred) == if pred(x) {
            s.filter(pred).push(x)
        } else {
            s.filter(pred)
        },
{
    reveal(Seq::filter);
    assert(s.push(x).drop_last() =~= s);
}

/// Number of leading values that are at most `signaled`.
pub open spec fn leading_signaled(values: Seq<u64>, signaled: u64) -> nat
    decreases values.len(),
{
    if values.len() == 0 || values[0] > signaled {
        0
    } else {
        1 + leading_signaled(values.drop_first(), signaled)
    }
}

/// Bounds the number of in-flight submissions: forgets the oldest submissions whose values the
/// semaphore already reached (`signaled`), then, while more than `max_in_flight` remain, removes
/// the oldest ones and returns their values, which the caller waits for in that order.
pub fn throttle_plan(in_flight: &mut Vec<u64>, signaled: u64, max_in_flight: usize) -> (r: Vec<u64>)
    ensures
        ({
            let d = leading_signaled(old(in_flight)@, signaled);
            let rest = old(in_flight)@.skip(d as int);
            let extra = if rest.len() > max_in_flight {
                (rest.len() - max_in_flight) as int
            } else {
                0int
            };
            &&& r@ == rest.take(extra)
            &&& final(in_flight)@ == rest.skip(extra)
        }),
        final(in_flight)@.len() <= max_in_flight,
{
    let ghost orig = in_flight@;
    let mut d: usize = 0;
    let ghost mut removed: nat = 0;
    assert(orig.skip(0) =~= orig);
    assert(orig.len() == in_flight.len());
    while in_flight.len() > 0 && in_flight[0] <= signaled
        invariant
            in_flight@ == orig.skip(d as int),
            d <= orig.len(),
            orig.len() <= usize::MAX,
            leading_signaled(orig, signaled) == d + leading_signaled(orig.skip(d as int), signaled),
        decreases in_flight.len(),
    {
        in_flight.remove(0);
        assert(orig.skip(d as int).drop_first() =~= orig.skip(d + 1));
        d = d + 1;
    }
    let ghost rest = orig.skip(d as int);
    let mut waits: Vec<u64> = Vec::new();
    let mut e: usize = 0;
    assert(rest.skip(0) =~= rest);
    while in_flight.len() > max_in_flight
        invariant
            in_flight@ == rest.skip(e as int),
            e <= rest.len(),
            rest.len() <= usize::MAX,
            waits@ == rest.take(e as int),
            rest.len() > max_in_flight ==> e <= rest.len() - max_in_flight,
            rest.len() <= max_in_flight ==> e == 0,
        decreases in_flight.len(),
    {
        let v = in_flight.remove(0);
        waits.push(v);
        assert(rest.skip(e as int).drop_first() =~= rest.skip(e + 1));
        assert(rest.take(e + 1) =~= rest.take(e as int).push(v));
        e = e + 1;
    }
    waits
}

/// The highest semaphore value among the frames of one batch, if the batch is not empty.
pub fn max_wait_value(values: &Vec<u64>) -> (r: Option<u64>)
    ensures
        values@.len() == 0 <==> r is None,
        r matches Some(m) ==> (exists|i: int| 0 <= i < values@.len() && values@[i] == m) && (
        forall|i: int| 0 <= i < values@.len() ==> values@[i] <= m),
{
    if values.len() == 0 {
        return None;
    }
    let mut m = values[0];
    let mut i: usize = 1;
    while i < values.len()
        invariant
            1 <= i <= values@.len(),
            exists|j: int| 0 <= j < i && values@[j] == m,
            forall|j: int| 0 <= j < i ==> values@[j] <= m,
        decreases values.len() - i,
    {
        if values[i] > m {
            m = values[i];
        }
        i = i + 1;
    }
    Some(m)
}

} // verus!
