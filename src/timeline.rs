use vstd::prelude::*;
use crate::frames::{FrameData, FrameTime};
use crate::timing::spec_with_bounce;

verus! {

/// The segments' frames, one after another in segment order.
pub open spec fn concat_frames(segs: Seq<Vec<FrameData>>) -> Seq<FrameData>
    decreases segs.len(),
{
    if segs.len() == 0 {
        Seq::empty()
    } else {
        concat_frames(segs.drop_last()) + segs.last()@
    }
}

/// `f` shows the picture of `src` at timeline position `i`, stamped `i / fps`.
pub open spec fn restamped(f: FrameData, src: FrameData, i: int, fps: u32) -> bool {
    &&& f.index == i
    &&& f.timestamp.ticks == i
    &&& f.timestamp.rate == fps
    &&& f.width == src.width
    &&& f.height == src.height
    &&& f.rgba@ == src.rgba@
}

/// Concatenates per-segment frame sequences into one timeline whose frame
/// `i` is stamped exactly `i / fps`, whatever the segments' own stamps were.
pub fn assemble_timeline(segments: Vec<Vec<FrameData>>, fps: u32) -> (r: Vec<FrameData>)
    ensures
        r@.len() == concat_frames(segments@).len(),
        forall|i: int|
            0 <= i < r@.len() ==> #[trigger] restamped(r@[i], concat_frames(segments@)[i], i, fps),
{
    let ghost orig = segments@;
    let mut segs = segments;
    let mut out: Vec<FrameData> = Vec::new();
    let n = segs.len();
    let mut k: usize = 0;
    assert(orig.subrange(0, 0) =~= Seq::<Vec<FrameData>>::empty());
    while k < n
        invariant
            n == orig.len(),
            segs@.len() == n,
            k <= n,
            forall|j: int| k <= j < n ==> #[trigger] segs@[j] == orig[j],
            out@.len() == concat_frames(orig.subrange(0, k as int)).len(),
            forall|i: int|
                0 <= i < out@.len() ==> #[trigger] restamped(
                    out@[i],
                    concat_frames(orig.subrange(0, k as int))[i],
                    i,
                    fps,
                ),
        decreases n - k,
    {
        let mut seg: Vec<FrameData> = Vec::new();
        std::mem::swap(&mut seg, &mut segs[k]);
        let ghost before = concat_frames(orig.subrange(0, k as int));
        assert(orig.subrange(0, k + 1).drop_last() =~= orig.subrange(0, k as int));
        let ghost after = concat_frames(orig.subrange(0, k + 1));
        assert(after == before + orig[k as int]@);
        let start = out.len();
        let ghost joined = out@ + seg@;
        out.append(&mut seg);
        let mut i: usize = start;
        while i < out.len()
            invariant
                start == before.len(),
                out@.len() == joined.len(),
                joined.len() == after.len(),
                start <= i <= out@.len(),
                forall|j: int| 0 <= j < start ==> #[trigger] restamped(joined[j], before[j], j, fps),
                forall|j: int| start <= j < joined.len() ==> #[trigger] joined[j] == orig[k as int]@[j - start],
                forall|j: int| i <= j < out@.len() ==> #[trigger] out@[j] == joined[j],
                forall|j: int| 0 <= j < start ==> #[trigger] out@[j] == joined[j],
                forall|j: int| start <= j < i ==> #[trigger] restamped(out@[j], after[j], j, fps),
                after == before + orig[k as int]@,
            decreases out@.len() - i,
        {
            out[i].index = i;
            out[i].timestamp = FrameTime { ticks: i as u64, rate: fps };
            assert(restamped(out@[i as int], after[i as int], i as int, fps));
            i = i + 1;
        }
        assert forall|j: int| 0 <= j < out@.len() implies #[trigger] restamped(out@[j], after[j], j, fps) by {
            if j < start {
                assert(after[j] == before[j]);
            }
        }
        k = k + 1;
    }
    assert(orig.subrange(0, n as int) =~= orig);
    out
}

/// The assembled timeline starts at zero and its timestamps rise by exactly
/// one frame interval (`1 / fps`) from each frame to the next, so they are
/// strictly increasing whatever the segments' own stamps were.
pub proof fn lemma_timeline_spacing(segments: Seq<Vec<FrameData>>, timeline: Seq<FrameData>, fps: u32)
    requires
        timeline.len() == concat_frames(segments).len(),
        forall|i: int| 0 <= i < timeline.len() ==> #[trigger] restamped(timeline[i], concat_frames(segments)[i], i, fps),
    ensures
        timeline.len() > 0 ==> timeline[0].timestamp.ticks == 0,
        forall|i: int|
            0 <= i < timeline.len() ==> (#[trigger] timeline[i]).timestamp.ticks == i && timeline[i].timestamp.rate == fps,
        forall|i: int, j: int|
            0 <= i < j < timeline.len() ==> (#[trigger] timeline[i]).timestamp.ticks < (#[trigger] timeline[j]).timestamp.ticks,
{
    assert forall|i: int| 0 <= i < timeline.len() implies (#[trigger] timeline[i]).timestamp.ticks == i
        && timeline[i].timestamp.rate == fps by {
        assert(restamped(timeline[i], concat_frames(segments)[i], i, fps));
    }
}

/// One frame handed to the encoder: output position `index` shows source
/// frame `source` of the forward timeline, at `timestamp`.
#[derive(Debug, Clone, Copy, PartialEq, Eq, Structural)]
pub struct FrameSubmission {
    pub index: usize,
    pub source: usize,
    pub timestamp: FrameTime,
}

/// Which forward frame output position `k` shows when `n` forward frames
/// bounce: forward up to `n - 1`, then back down to `0`.
pub open spec fn spec_bounce_source(n: nat, k: nat) -> nat {
    if k < n {
        k
    } else {
        (2 * n - 2 - k) as nat
    }
}

/// Output position and source frame of the `p`-th submission: positions
/// are handed over in strict timeline order, position `p` showing the
/// forward frame that bounce mirroring puts there.
pub open spec fn spec_feed_entry(n: nat, bounce: bool, p: nat) -> (nat, nat) {
    (p, if bounce { spec_bounce_source(n, p) } else { p })
}

/// The order in which the encoder receives frames for a timeline of `n`
/// forward frames at `fps`: the forward frames `0..n`, then (when
/// bouncing) the mirrored positions `n..2n-1`, position `k` showing forward
/// frame `2n - 2 - k`. Each position is stamped `position / fps`.
pub fn feed_order(n: usize, bounce: bool, fps: u32) -> (r: Vec<FrameSubmission>)
    requires
        2 * n <= usize::MAX,
    ensures
        r@.len() == spec_with_bounce(n as nat, bounce),
        forall|p: int|
            #![trigger r@[p]]
            0 <= p < r@.len() ==> {
                &&& r@[p].index == p
                &&& (r@[p].index as nat, r@[p].source as nat) == spec_feed_entry(n as nat, bounce, p as nat)
                &&& r@[p].source < n
                &&& r@[p].timestamp.ticks == p
                &&& r@[p].timestamp.rate == fps
            },
{
    let total: usize = if bounce && n > 1 {
        2 * n - 1
    } else {
        n
    };
    let mut out: Vec<FrameSubmission> = Vec::new();
    let mut k: usize = 0;
    while k < total
        invariant
            total == spec_with_bounce(n as nat, bounce),
            2 * n <= usize::MAX,
            k <= total,
            out@.len() == k,
            forall|p: int|
                #![trigger out@[p]]
                0 <= p < k ==> {
                    &&& out@[p].index == p
                    &&& (out@[p].index as nat, out@[p].source as nat) == spec_feed_entry(n as nat, bounce, p as nat)
                    &&& out@[p].source < n
                    &&& out@[p].timestamp.ticks == p
                    &&& out@[p].timestamp.rate == fps
                },
        decreases total - k,
    {
        let source: usize = if k < n {
            k
        } else {
            2 * n - 2 - k
        };
        out.push(FrameSubmission { index: k, source, timestamp: FrameTime { ticks: k as u64, rate: fps } });
        k = k + 1;
    }
    out
}

/// Bounce mirroring: `n` forward frames play as `2n - 1`; position `n`
/// repeats forward frame `n - 2`, the last position repeats frame `0`, and
/// every position shows the same frame as its mirror `2n - 2 - k`.
pub proof fn lemma_bounce_mirror(n: nat)
    requires
        n >= 2,
    ensures
        spec_with_bounce(n, true) == 2 * n - 1,
        spec_bounce_source(n, n) == n - 2,
        spec_bounce_source(n, (2 * n - 2) as nat) == 0,
        forall|k: nat|
            k < 2 * n - 1 ==> #[trigger] spec_bounce_source(n, k) == spec_bounce_source(
                n,
                (2 * n - 2 - k) as nat,
            ),
{
}

/// The feed order hands over every output position exactly once, in
/// strictly increasing order, each with a forward frame that exists and that
/// bounce mirroring puts there.
pub proof fn lemma_feed_covers(n: nat, bounce: bool)
    ensures
        forall|p: nat|
            p < spec_with_bounce(n, bounce) ==> {
                &&& (#[trigger] spec_feed_entry(n, bounce, p)).0 == p
                &&& spec_feed_entry(n, bounce, p).1 < n
            },
        forall|p: nat, q: nat|
            p < q < spec_with_bounce(n, bounce) ==> #[trigger] spec_feed_entry(n, bounce, p).0
                < #[trigger] spec_feed_entry(n, bounce, q).0,
{
}

} // verus!
