use vstd::prelude::*;

verus! {

/// What the encoder does with one frame before recording it: whether it is coded as an IDR
/// frame, and which reference slot (the oldest one) is released to make room, if any.
#[derive(Debug, Clone, Copy, PartialEq, Eq, Structural)]
pub struct FramePlan {
    pub is_idr: bool,
    pub evicted_slot: Option<usize>,
}

/// IDR cadence and reference-slot bookkeeping of a hardware encoder.
///
/// References are kept oldest first; a new picture is appended after it is encoded. The DPB
/// holds at most `max_references + 1` pictures (the references and the picture being coded).
pub struct EncoderFrameState {
    idr_period_counter: u32,
    idr_period: u32,
    max_dpb_slots: u32,
    active_reference_slots: Vec<usize>,
    frames_since_idr: Ghost<nat>,
}

impl EncoderFrameState {
    pub closed spec fn idr_period_spec(&self) -> u32 {
        self.idr_period
    }

    pub closed spec fn max_dpb_slots_spec(&self) -> u32 {
        self.max_dpb_slots
    }

    /// Slots of the current references, oldest first.
    pub closed spec fn active_slots(&self) -> Seq<usize> {
        self.active_reference_slots@
    }

    /// Number of frames encoded since the last IDR frame (the IDR frame included).
    pub closed spec fn frames_since_idr_spec(&self) -> nat {
        self.frames_since_idr@
    }

    pub closed spec fn counter_spec(&self) -> u32 {
        self.idr_period_counter
    }

    pub closed spec fn wf(&self) -> bool {
        &&& self.idr_period > 0
        &&& self.max_dpb_slots > 0
        &&& self.idr_period_counter < self.idr_period
        &&& self.idr_period_counter == self.frames_since_idr@ % (self.idr_period as nat)
        &&& self.active_reference_slots@.len() <= self.max_dpb_slots
    }

    /// A fresh encoder: the first frame it encodes is an IDR frame.
    pub fn new(idr_period: u32, max_references: u32) -> (r: Self)
        requires
            idr_period > 0,
            max_references < u32::MAX,
        ensures
            r.wf(),
            r.idr_period_spec() == idr_period,
            r.max_dpb_slots_spec() == max_references + 1,
            r.active_slots() == Seq::<usize>::empty(),
            r.frames_since_idr_spec() == 0,
    {
        proof {
            vstd::arithmetic::div_mod::lemma_small_mod(0, idr_period as nat);
        }
        EncoderFrameState {
            idr_period_counter: 0,
            idr_period,
            max_dpb_slots: max_references + 1,
            active_reference_slots: Vec::new(),
            frames_since_idr: Ghost(0),
        }
    }

    pub fn active_reference_slots(&self) -> (r: &Vec<usize>)
        ensures
            r@ == self.active_slots(),
    {
        &self.active_reference_slots
    }

    /// Decides how the next frame is coded. It is an IDR frame when forced or when a whole IDR
    /// period has passed; an IDR frame drops every reference. Otherwise, when the DPB is full of
    /// references, the oldest one is released. With [`Self::end_frame`] after it, one frame
    /// takes one step of [`idr_pattern`]: the decision is its first entry and the frame count
    /// moves on as [`frames_after`] says.
    pub fn begin_frame(&mut self, force_idr: bool) -> (r: FramePlan)
        requires
            old(self).wf(),
        ensures
            final(self).wf(),
            final(self).idr_period_spec() == old(self).idr_period_spec(),
            final(self).max_dpb_slots_spec() == old(self).max_dpb_slots_spec(),
            r.is_idr == frame_is_idr(
                old(self).frames_since_idr_spec(),
                old(self).idr_period_spec() as nat,
                force_idr,
            ),
            r.is_idr ==> {
                &&& final(self).active_slots() == Seq::<usize>::empty()
                &&& final(self).frames_since_idr_spec() == 0
                &&& r.evicted_slot is None
            },
            !r.is_idr ==> {
                &&& final(self).frames_since_idr_spec() == old(self).frames_since_idr_spec()
                &&& if old(self).active_slots().len() == old(self).max_dpb_slots_spec() {
                    &&& r.evicted_slot == Some(old(self).active_slots()[0])
                    &&& final(self).active_slots() == old(self).active_slots().drop_first()
                } else {
                    &&& r.evicted_slot is None
                    &&& final(self).active_slots() == old(self).active_slots()
                }
            },
            final(self).active_slots().len() < final(self).max_dpb_slots_spec(),
            final(self).frames_since_idr_spec() + 1 == frames_after(
                old(self).frames_since_idr_spec(),
                old(self).idr_period_spec() as nat,
                force_idr,
            ),
    {
        let is_idr = force_idr || self.idr_period_counter == 0;
        if is_idr {
            self.idr_period_counter = 0;
            self.active_reference_slots.clear();
            self.frames_since_idr = Ghost(0);
            proof {
                vstd::arithmetic::div_mod::lemma_small_mod(0, self.idr_period as nat);
            }
            return FramePlan { is_idr: true, evicted_slot: None };
        }
        let mut evicted_slot = None;
        if self.active_reference_slots.len() == self.max_dpb_slots as usize {
            let oldest = self.active_reference_slots.remove(0);
            evicted_slot = Some(oldest);
        }
        FramePlan { is_idr: false, evicted_slot }
    }

    /// Records the encoded frame: its picture becomes the newest reference and the IDR counter
    /// advances, wrapping at the IDR period.
    pub fn end_frame(&mut self, setup_slot: usize)
        requires
            old(self).wf(),
            old(self).active_slots().len() < old(self).max_dpb_slots_spec(),
        ensures
            final(self).wf(),
            final(self).idr_period_spec() == old(self).idr_period_spec(),
            final(self).max_dpb_slots_spec() == old(self).max_dpb_slots_spec(),
            final(self).active_slots() == old(self).active_slots().push(setup_slot),
            final(self).frames_since_idr_spec() == old(self).frames_since_idr_spec() + 1,
    {
        self.active_reference_slots.push(setup_slot);
        let ghost n = self.frames_since_idr@;
        let ghost p = self.idr_period as nat;
        self.frames_since_idr = Ghost(n + 1);
        self.idr_period_counter = (self.idr_period_counter + 1) % self.idr_period;
        proof {
            lemma_mod_succ(n, p);
        }
    }

    /// Reference slots in the order the hardware expects them: most recent first.
    pub fn references_most_recent_first(&self) -> (r: Vec<usize>)
        ensures
            r@ == self.active_slots().reverse(),
    {
        let n = self.active_reference_slots.len();
        let mut r: Vec<usize> = Vec::new();
        let mut i: usize = n;
        while i > 0
            invariant
                i <= n,
                n == self.active_reference_slots@.len(),
                r@ == self.active_reference_slots@.subrange(i as int, n as int).reverse(),
            decreases i,
        {
            i = i - 1;
            r.push(self.active_reference_slots[i]);
            assert(self.active_reference_slots@.subrange(i as int, n as int).reverse()
                =~= self.active_reference_slots@.subrange(i + 1, n as int).reverse().push(
                self.active_reference_slots@[i as int]));
        }
        assert(self.active_reference_slots@.subrange(0, n as int)
            =~= self.active_reference_slots@);
        r
    }
}

proof fn lemma_mod_succ(n: nat, p: nat)
    requires
        p > 0,
    ensures
        (n + 1) % p == ((n % p) + 1) % p,
{
    vstd::arithmetic::div_mod::lemma_add_mod_noop(n as int, 1, p as int);
    vstd::arithmetic::div_mod::lemma_add_mod_noop_right((n % p) as int, 1, p as int);
}


/// Whether the next frame is coded as an IDR frame, `frames_since_idr` frames after the last
/// IDR frame (that one included): when forced, or when a whole IDR period has passed.
pub open spec fn frame_is_idr(frames_since_idr: nat, idr_period: nat, force: bool) -> bool {
    force || frames_since_idr % idr_period == 0
}

/// Frames since the last IDR frame once the next frame is encoded.
pub open spec fn frames_after(frames_since_idr: nat, idr_period: nat, force: bool) -> nat {
    (if frame_is_idr(frames_since_idr, idr_period, force) {
        0
    } else {
        frames_since_idr
    }) + 1
}

/// Which of a run of frames are coded as IDR frames, `frames_since_idr` frames after the last
/// IDR frame, when `forced` says which of them are forced to be.
pub open spec fn idr_pattern(frames_since_idr: nat, idr_period: nat, forced: Seq<bool>) -> Seq<bool>
    decreases forced.len(),
{
    if forced.len() == 0 {
        Seq::empty()
    } else {
        seq![frame_is_idr(frames_since_idr, idr_period, forced[0])] + idr_pattern(
            frames_after(frames_since_idr, idr_period, forced[0]),
            idr_period,
            forced.drop_first(),
        )
    }
}

/// `n` frames none of which is forced to be an IDR frame.
pub open spec fn unforced(n: nat) -> Seq<bool> {
    Seq::new(n, |_i: int| false)
}

proof fn lemma_unforced_pattern(f: nat, p: nat, n: nat, i: int)
    requires
        p > 0,
        0 <= i < n,
    ensures
        idr_pattern(f, p, unforced(n)).len() == n,
        idr_pattern(f, p, unforced(n))[i] == ((f + i) % (p as int) == 0),
    decreases n,
{
    let forced = unforced(n);
    assert(forced.drop_first() =~= unforced((n - 1) as nat));
    let next = frames_after(f, p, false);
    if n > 1 {
        lemma_unforced_pattern(next, p, (n - 1) as nat, if i > 0 {
            i - 1
        } else {
            0
        });
    }
    lemma_pattern_len(next, p, unforced((n - 1) as nat));
    if i > 0 {
        if f % p == 0 {
            assert(next == 1);
            vstd::arithmetic::div_mod::lemma_add_mod_noop(f as int, i, p as int);
            vstd::arithmetic::div_mod::lemma_mod_self_0(p as int);
            vstd::arithmetic::div_mod::lemma_small_mod(0, p as nat);
            vstd::arithmetic::div_mod::lemma_add_mod_noop(0, i, p as int);
        } else {
            assert(next == f + 1);
        }
        assert((next + (i - 1)) % (p as int) == (f + i) % (p as int));
    }
}

proof fn lemma_pattern_len(f: nat, p: nat, forced: Seq<bool>)
    ensures
        idr_pattern(f, p, forced).len() == forced.len(),
    decreases forced.len(),
{
    if forced.len() > 0 {
        lemma_pattern_len(frames_after(f, p, forced[0]), p, forced.drop_first());
    }
}

/// Without forcing, a fresh encoder codes frame `i` as an IDR frame exactly when `i` is a
/// multiple of the IDR period: one IDR frame every `idr_period` frames, starting with the
/// first.
pub proof fn law_unforced_idr_every_period(idr_period: nat, n: nat)
    requires
        idr_period > 0,
    ensures
        idr_pattern(0, idr_period, unforced(n)).len() == n,
        forall|i: int|
            0 <= i < n ==> #[trigger] idr_pattern(0, idr_period, unforced(n))[i] == (i % (
            idr_period as int) == 0),
{
    lemma_pattern_len(0, idr_period, unforced(n));
    assert forall|i: int| 0 <= i < n implies #[trigger] idr_pattern(0, idr_period, unforced(n))[i]
        == (i % (idr_period as int) == 0) by {
        lemma_unforced_pattern(0, idr_period, n, i);
    }
}

/// A forced IDR frame restarts the period: whatever came before, the frames after it follow
/// the pattern of a fresh encoder.
pub proof fn law_forced_idr_restarts_period(frames_since_idr: nat, idr_period: nat, rest: Seq<bool>)
    requires
        idr_period > 0,
    ensures
        idr_pattern(frames_since_idr, idr_period, seq![true] + rest) == seq![true] + idr_pattern(
            1,
            idr_period,
            rest,
        ),
        idr_pattern(0, idr_period, seq![false] + rest) == seq![true] + idr_pattern(
            1,
            idr_period,
            rest,
        ),
{
    assert((seq![true] + rest).drop_first() =~= rest);
    assert((seq![false] + rest).drop_first() =~= rest);
    vstd::arithmetic::div_mod::lemma_small_mod(0, idr_period);
}

} // verus!
