use vstd::prelude::*;
use crate::settings::{ConversionSettings, segment_estimate, segment_ok, spec_segment_estimate};

verus! {

/// A progress notification: frames done out of the frames expected.
#[derive(Debug, Clone, Copy, PartialEq, Eq, Structural)]
pub struct ConversionProgress {
    pub completed_frames: u64,
    pub total_frames: u64,
}

/// `v`, or `u64::MAX` when it does not fit.
pub open spec fn cap(v: nat) -> u64 {
    if v > u64::MAX {
        u64::MAX
    } else {
        v as u64
    }
}

/// Sum of the first `k` entries of `s`.
pub open spec fn sum_prefix(s: Seq<nat>, k: int) -> nat
    decreases k,
{
    if k <= 0 {
        0
    } else {
        sum_prefix(s, k - 1) + s[k - 1]
    }
}

/// Sum of the entries of `s` from `k` on.
pub open spec fn sum_from(s: Seq<nat>, k: int) -> nat
    decreases s.len() - k,
{
    if k >= s.len() {
        0
    } else {
        s[k] + sum_from(s, k + 1)
    }
}

/// One continuous progress bar over segments encoded one after another.
///
/// Before segment `k` finishes, the bar's total is the actual frame totals of
/// segments `0..k` plus the estimates of the rest; frames done are
/// `offset_k + local`, where `offset_k` is the sum of the actual totals of
/// segments `0..k`. Once every segment finished, the total is the sum of the
/// actual totals.
pub struct SplitProgress {
    estimates: Vec<u64>,
    offset: u64,
    done: usize,
    remaining: u64,
    actuals: Ghost<Seq<nat>>,
}

impl SplitProgress {
    pub closed spec fn estimates(&self) -> Seq<nat> {
        self.estimates@.map_values(|e: u64| e as nat)
    }

    /// Actual totals of the segments finished so far.
    pub closed spec fn actuals(&self) -> Seq<nat> {
        self.actuals@
    }

    pub closed spec fn offset(&self) -> nat {
        self.offset as nat
    }

    pub closed spec fn wf(&self) -> bool {
        &&& self.done == self.actuals@.len()
        &&& self.done <= self.estimates@.len()
        &&& self.offset == sum_prefix(self.actuals@, self.done as int)
        &&& self.remaining == sum_from(self.estimates(), self.done as int)
    }

    /// Segments finished so far.
    pub open spec fn finished(&self) -> nat {
        self.actuals().len()
    }

    /// The total currently shown.
    pub open spec fn spec_total(&self) -> nat {
        self.offset() + sum_from(self.estimates(), self.finished() as int)
    }

    /// Starts a bar over the segments of `settings`, each expected to yield
    /// `ceil(duration / speed * fps)` frames (`2n - 1` when bounced).
    pub fn new(settings: &ConversionSettings) -> (r: SplitProgress)
        requires
            settings.wf(),
        ensures
            r.wf(),
            r.finished() == 0,
            r.offset() == 0,
            r.estimates().len() == settings.segments@.len(),
            forall|i: int|
                0 <= i < settings.segments@.len() ==> #[trigger] r.estimates()[i] == spec_segment_estimate(
                    settings.segments@[i],
                    settings.speed_micro as nat,
                    settings.fps as nat,
                    settings.bounce,
                ),
            r.spec_total() == settings.spec_estimated_total(),
    {
        let n = settings.segments.len();
        let mut estimates: Vec<u64> = Vec::new();
        let mut i: usize = 0;
        while i < n
            invariant
                settings.wf(),
                n == settings.segments@.len(),
                i <= n,
                estimates@.len() == i,
                forall|j: int|
                    0 <= j < i ==> #[trigger] estimates@[j] as nat == spec_segment_estimate(
                        settings.segments@[j],
                        settings.speed_micro as nat,
                        settings.fps as nat,
                        settings.bounce,
                    ),
            decreases n - i,
        {
            proof {
                assert(segment_ok(settings.segments@[i as int]));
                crate::settings::lemma_estimate_prefix_monotonic(
                    settings.segments@,
                    i + 1,
                    n as int,
                    settings.speed_micro as nat,
                    settings.fps as nat,
                    settings.bounce,
                );
            }
            let e = segment_estimate(&settings.segments[i], settings.speed_micro, settings.fps, settings.bounce);
            estimates.push(e as u64);
            i = i + 1;
        }
        let remaining = settings.estimated_total();
        let ghost es = estimates@.map_values(|e: u64| e as nat);
        proof {
            lemma_prefix_plus_from(es, 0);
            lemma_estimate_sums(settings, es, n as int);
        }
        SplitProgress { estimates, offset: 0, done: 0, remaining, actuals: Ghost(Seq::empty()) }
    }

    /// The notification for `local` frames done in the current segment
    /// (each count capped at `u64::MAX`).
    pub fn report(&self, local: u64) -> (r: ConversionProgress)
        requires
            self.wf(),
        ensures
            r.completed_frames == cap((self.offset() + local) as nat),
            r.total_frames == cap(self.spec_total()),
    {
        ConversionProgress {
            completed_frames: self.offset.saturating_add(local),
            total_frames: self.offset.saturating_add(self.remaining),
        }
    }

    /// Records that the current segment finished with `actual` frames, and
    /// moves the offset on by that actual (not estimated) count.
    pub fn finish_segment(&mut self, actual: u64)
        requires
            old(self).wf(),
            old(self).finished() < old(self).estimates().len(),
            old(self).offset() + actual <= u64::MAX,
        ensures
            final(self).wf(),
            final(self).estimates() == old(self).estimates(),
            final(self).actuals() == old(self).actuals().push(actual as nat),
            final(self).offset() == old(self).offset() + actual,
    {
        let ghost k = self.done as int;
        let ghost es = self.estimates();
        assert(es.len() == self.estimates@.len());
        let len = self.estimates.len();
        assert(self.done < len);
        assert(es[k] == self.estimates@[k] as nat);
        self.offset = self.offset + actual;
        self.remaining = self.remaining - self.estimates[self.done];
        self.done = self.done + 1;
        self.actuals = Ghost(self.actuals@.push(actual as nat));
        proof {
            assert(self.actuals@.drop_last() =~= old(self).actuals@);
            lemma_sum_prefix_same(self.actuals@, old(self).actuals@, k);
        }
    }

    /// The notification once every segment finished: all frames done, out of
    /// the sum of the actual per-segment totals.
    pub fn final_progress(&self) -> (r: ConversionProgress)
        requires
            self.wf(),
            self.finished() == self.estimates().len(),
        ensures
            r.completed_frames == sum_prefix(self.actuals(), self.actuals().len() as int),
            r.total_frames == sum_prefix(self.actuals(), self.actuals().len() as int),
            r.total_frames == self.spec_total(),
    {
        ConversionProgress { completed_frames: self.offset, total_frames: self.offset }
    }

    /// The offset of the current segment: the frames of the finished ones.
    pub fn current_offset(&self) -> (r: u64)
        requires
            self.wf(),
        ensures
            r == self.offset(),
            r == sum_prefix(self.actuals(), self.actuals().len() as int),
    {
        self.offset
    }
}

proof fn lemma_sum_prefix_same(a: Seq<nat>, b: Seq<nat>, k: int)
    requires
        0 <= k <= b.len(),
        k <= a.len(),
        forall|i: int| 0 <= i < k ==> a[i] == b[i],
    ensures
        sum_prefix(a, k) == sum_prefix(b, k),
    decreases k,
{
    if k > 0 {
        lemma_sum_prefix_same(a, b, k - 1);
    }
}

proof fn lemma_prefix_plus_from(s: Seq<nat>, k: int)
    requires
        0 <= k <= s.len(),
    ensures
        sum_prefix(s, k) + sum_from(s, k) == sum_prefix(s, s.len() as int),
    decreases s.len() - k,
{
    if k < s.len() {
        lemma_prefix_plus_from(s, k + 1);
    }
}

proof fn lemma_estimate_sums(settings: &ConversionSettings, es: Seq<nat>, k: int)
    requires
        0 <= k <= es.len(),
        es.len() == settings.segments@.len(),
        forall|j: int|
            0 <= j < es.len() ==> #[trigger] es[j] == spec_segment_estimate(
                settings.segments@[j],
                settings.speed_micro as nat,
                settings.fps as nat,
                settings.bounce,
            ),
    ensures
        sum_prefix(es, k) == crate::settings::spec_estimate_prefix(
            settings.segments@,
            k,
            settings.speed_micro as nat,
            settings.fps as nat,
            settings.bounce,
        ),
    decreases k,
{
    if k > 0 {
        lemma_estimate_sums(settings, es, k - 1);
    }
}

/// Split progress never goes backwards: a notification made in segment `j`
/// with `local` frames of its actual total done is at most any notification
/// made in a later segment `k`.
pub proof fn lemma_split_progress_monotonic(actuals: Seq<nat>, j: int, local: nat, k: int, later: nat)
    requires
        0 <= j < k <= actuals.len(),
        local <= actuals[j],
    ensures
        sum_prefix(actuals, j) + local <= sum_prefix(actuals, k) + later,
    decreases k - j,
{
    if k > j + 1 {
        lemma_split_progress_monotonic(actuals, j, local, k - 1, 0);
    }
}

/// One tick of the encoder's writer: `None` (stop encoding) when
/// cancellation was requested, else the notification for one more frame.
pub fn progress_tick(cancelled: bool, completed_before: u64, total: u64) -> (r: Option<ConversionProgress>)
    requires
        completed_before < u64::MAX,
    ensures
        cancelled ==> r is None,
        !cancelled ==> r == Some(ConversionProgress { completed_frames: (completed_before + 1) as u64, total_frames: total }),
{
    if cancelled {
        None
    } else {
        Some(ConversionProgress { completed_frames: completed_before + 1, total_frames: total })
    }
}

} // verus!
