use vstd::prelude::*;
use crate::error::ConvertError;
use crate::timing::{expected_frame_count, spec_expected_frames, spec_with_bounce, with_bounce};

verus! {

/// A user-chosen range of the source video, in absolute microseconds.
#[derive(Debug, Clone, Copy)]
pub struct TrimSegment {
    pub start_us: u64,
    pub end_us: u64,
}

/// A crop rectangle in millionths of the source frame (0 ..= 1_000_000 each).
#[derive(Debug, Clone, Copy)]
pub struct CropRect {
    pub x_micro: u64,
    pub y_micro: u64,
    pub width_micro: u64,
    pub height_micro: u64,
}

/// How several segments are combined.
#[derive(Debug, Clone, Copy, PartialEq, Eq, Structural)]
pub enum SegmentMode {
    /// One output for all segments.
    Merge,
    /// One output per segment.
    Split,
}

impl SegmentMode {
    /// The mode a user interface names: `split`, or merge for anything else.
    pub fn from_name(name: &str) -> (r: SegmentMode)
        ensures
            r == if name@ == "split"@ {
                SegmentMode::Split
            } else {
                SegmentMode::Merge
            },
    {
        if crate::metadata::same_text(name, "split") {
            SegmentMode::Split
        } else {
            SegmentMode::Merge
        }
    }

    /// The mode's name.
    pub fn name(&self) -> (r: &'static str)
        ensures
            r@ == match self {
                SegmentMode::Split => "split"@,
                SegmentMode::Merge => "merge"@,
            },
    {
        match self {
            SegmentMode::Split => "split",
            SegmentMode::Merge => "merge",
        }
    }
}

/// How often the animated image repeats.
#[derive(Debug, Clone, Copy, PartialEq, Eq, Structural)]
pub enum LoopPolicy {
    Infinite,
    /// Plays once and then repeats this many more times.
    Finite(u16),
}

/// Everything one conversion run is driven by.
#[derive(Debug, Clone)]
pub struct ConversionSettings {
    pub source_path: String,
    /// Quality in millionths (1_000_000 is best).
    pub quality_micro: u64,
    pub width: Option<u32>,
    pub height: Option<u32>,
    pub fps: u32,
    /// Playback speed in millionths (1_000_000 plays at normal speed).
    pub speed_micro: u64,
    pub loop_forever: bool,
    pub loop_count: u32,
    pub bounce: bool,
    pub segments: Vec<TrimSegment>,
    pub segment_mode: SegmentMode,
    pub crop: Option<CropRect>,
}

/// Settings handed to the image encoder.
#[derive(Debug, Clone, Copy)]
pub struct EncoderConfig {
    pub width: Option<u32>,
    pub height: Option<u32>,
    /// Encoder quality on its 1..=100 scale.
    pub quality: u8,
    pub repeat: LoopPolicy,
}

pub open spec fn segment_ok(s: TrimSegment) -> bool {
    s.start_us < s.end_us
}

/// Frames one segment is expected to contribute, bounce included.
pub open spec fn spec_segment_estimate(s: TrimSegment, speed_micro: nat, fps: nat, bounce: bool) -> nat {
    spec_with_bounce(spec_expected_frames(s.start_us as nat, s.end_us as nat, speed_micro, fps), bounce)
}

/// Sum of the estimates of the first `k` segments.
pub open spec fn spec_estimate_prefix(segs: Seq<TrimSegment>, k: int, speed_micro: nat, fps: nat, bounce: bool) -> nat
    decreases k,
{
    if k <= 0 {
        0
    } else {
        spec_estimate_prefix(segs, k - 1, speed_micro, fps, bounce)
            + spec_segment_estimate(segs[k - 1], speed_micro, fps, bounce)
    }
}

/// Quality on the encoder's scale: `round(quality * 100)` clamped to `1..=100`.
pub open spec fn spec_encoder_quality(quality_micro: nat) -> nat {
    let r = quality_micro / 10_000 + (if quality_micro % 10_000 >= 5_000 { 1nat } else { 0nat });
    if r < 1 {
        1
    } else if r > 100 {
        100
    } else {
        r
    }
}

pub open spec fn spec_loop_policy(loop_forever: bool, loop_count: u32) -> LoopPolicy {
    if loop_forever {
        LoopPolicy::Infinite
    } else if loop_count > u16::MAX {
        LoopPolicy::Finite(u16::MAX)
    } else {
        LoopPolicy::Finite(loop_count as u16)
    }
}

/// Estimates never shrink as segments are added.
pub proof fn lemma_estimate_prefix_monotonic(
    segs: Seq<TrimSegment>,
    j: int,
    k: int,
    speed_micro: nat,
    fps: nat,
    bounce: bool,
)
    requires
        0 <= j <= k,
    ensures
        spec_estimate_prefix(segs, j, speed_micro, fps, bounce) <= spec_estimate_prefix(
            segs,
            k,
            speed_micro,
            fps,
            bounce,
        ),
    decreases k - j,
{
    if j < k {
        lemma_estimate_prefix_monotonic(segs, j, k - 1, speed_micro, fps, bounce);
    }
}

/// Frames one segment is expected to contribute:
/// `ceil(((end - start) / speed) * fps)`, then `2n - 1` if bounced.
pub fn segment_estimate(seg: &TrimSegment, speed_micro: u64, fps: u32, bounce: bool) -> (r: u128)
    requires
        segment_ok(*seg),
        speed_micro > 0,
    ensures
        r == spec_segment_estimate(*seg, speed_micro as nat, fps as nat, bounce),
{
    let n = expected_frame_count(seg.start_us, seg.end_us, speed_micro, fps);
    with_bounce(n, bounce)
}

impl ConversionSettings {
    /// Frames the whole run is expected to produce: the per-segment
    /// estimates summed in settings order.
    pub fn estimated_total(&self) -> (r: u64)
        requires
            self.wf(),
        ensures
            r == self.spec_estimated_total(),
    {
        let n = self.segments.len();
        let mut acc: u64 = 0;
        let mut i: usize = 0;
        while i < n
            invariant
                self.wf(),
                n == self.segments@.len(),
                i <= n,
                acc == spec_estimate_prefix(
                    self.segments@,
                    i as int,
                    self.speed_micro as nat,
                    self.fps as nat,
                    self.bounce,
                ),
            decreases n - i,
        {
            let e = segment_estimate(&self.segments[i], self.speed_micro, self.fps, self.bounce);
            proof {
                assert(segment_ok(self.segments@[i as int]));
                lemma_estimate_prefix_monotonic(
                    self.segments@,
                    i + 1,
                    n as int,
                    self.speed_micro as nat,
                    self.fps as nat,
                    self.bounce,
                );
            }
            acc = acc + e as u64;
            i = i + 1;
        }
        acc
    }

    /// The run can be planned: a positive frame rate and speed, at least one
    /// segment, each ending after it starts, and a frame total that a
    /// 64-bit counter holds.
    pub open spec fn wf(&self) -> bool {
        &&& self.fps > 0
        &&& self.speed_micro > 0
        &&& self.segments@.len() > 0
        &&& forall|i: int| 0 <= i < self.segments@.len() ==> #[trigger] segment_ok(self.segments@[i])
        &&& self.spec_estimated_total() <= u64::MAX
        &&& self.crop matches Some(c) ==> crate::frames::crop_ok(c)
    }

    /// `self` and `other` agree on everything but their segments.
    pub open spec fn same_but_segments(&self, other: &ConversionSettings) -> bool {
        &&& self.source_path@ == other.source_path@
        &&& self.quality_micro == other.quality_micro
        &&& self.width == other.width
        &&& self.height == other.height
        &&& self.fps == other.fps
        &&& self.speed_micro == other.speed_micro
        &&& self.loop_forever == other.loop_forever
        &&& self.loop_count == other.loop_count
        &&& self.bounce == other.bounce
        &&& self.segment_mode == other.segment_mode
        &&& self.crop == other.crop
    }

    /// These settings with `segments` in place of their own.
    pub fn with_segments(&self, segments: Vec<TrimSegment>) -> (r: ConversionSettings)
        ensures
            r.same_but_segments(self),
            r.segments@ == segments@,
    {
        ConversionSettings {
            source_path: self.source_path.clone(),
            quality_micro: self.quality_micro,
            width: self.width,
            height: self.height,
            fps: self.fps,
            speed_micro: self.speed_micro,
            loop_forever: self.loop_forever,
            loop_count: self.loop_count,
            bounce: self.bounce,
            segments,
            segment_mode: self.segment_mode,
            crop: self.crop,
        }
    }

    /// Checks that the run can be planned (`wf`), else `Invalid` with the
    /// reason.
    pub fn validate(&self) -> (r: Result<(), ConvertError>)
        ensures
            r is Ok <==> self.wf(),
            r matches Err(e) ==> e is Invalid,
    {
        if self.fps == 0 {
            return Err(ConvertError::Invalid(String::from_str("Frame rate must be positive")));
        }
        if self.speed_micro == 0 {
            return Err(ConvertError::Invalid(String::from_str("Speed must be positive")));
        }
        if self.segments.len() == 0 {
            return Err(ConvertError::Invalid(String::from_str("No segments selected")));
        }
        match self.crop {
            Some(c) => {
                if c.x_micro > 1_000_000 || c.y_micro > 1_000_000 || c.width_micro > 1_000_000
                    || c.height_micro > 1_000_000 {
                    return Err(ConvertError::Invalid(String::from_str("Crop must lie within the frame")));
                }
            },
            None => {},
        }
        let n = self.segments.len();
        let mut acc: u128 = 0;
        let mut i: usize = 0;
        while i < n
            invariant
                n == self.segments@.len(),
                self.speed_micro > 0,
                i <= n,
                forall|j: int| 0 <= j < i ==> #[trigger] segment_ok(self.segments@[j]),
                acc == spec_estimate_prefix(self.segments@, i as int, self.speed_micro as nat, self.fps as nat, self.bounce),
                acc <= u64::MAX,
            decreases n - i,
        {
            let seg = self.segments[i];
            if seg.start_us >= seg.end_us {
                assert(!segment_ok(self.segments@[i as int]));
                return Err(ConvertError::Invalid(String::from_str("A segment must end after it starts")));
            }
            let e = segment_estimate(&seg, self.speed_micro, self.fps, self.bounce);
            if e > u64::MAX as u128 - acc {
                proof {
                    lemma_estimate_prefix_monotonic(
                        self.segments@,
                        i + 1,
                        n as int,
                        self.speed_micro as nat,
                        self.fps as nat,
                        self.bounce,
                    );
                }
                return Err(ConvertError::Invalid(String::from_str("Too many frames requested")));
            }
            acc = acc + e;
            i = i + 1;
        }
        Ok(())
    }

    /// A copy of the segment list.
    pub fn copy_segments(&self) -> (r: Vec<TrimSegment>)
        ensures
            r@ == self.segments@,
    {
        let mut all: Vec<TrimSegment> = Vec::new();
        let mut i: usize = 0;
        while i < self.segments.len()
            invariant
                i <= self.segments@.len(),
                all@ == self.segments@.take(i as int),
            decreases self.segments@.len() - i,
        {
            all.push(self.segments[i]);
            i = i + 1;
        }
        assert(all@ =~= self.segments@);
        all
    }

    /// The lighter run used to estimate the output size: the frame rate
    /// capped at 5, everything else as given.
    pub fn estimation_settings(&self) -> (r: ConversionSettings)
        ensures
            r.fps == if self.fps > 5 { 5 } else { self.fps },
            r.width == self.width,
            r.height == self.height,
            r.quality_micro == self.quality_micro,
            r.speed_micro == self.speed_micro,
            r.bounce == self.bounce,
            r.crop == self.crop,
            r.segments@ == self.segments@,
    {
        let mut r = self.with_segments(self.copy_segments());
        if r.fps > 5 {
            r.fps = 5;
        }
        r
    }

    /// The low-resolution preview run: the frame rate capped at 8, a
    /// requested width capped at 320 and height at 240.
    pub fn preview_settings(&self) -> (r: ConversionSettings)
        ensures
            r.fps == if self.fps > 8 { 8 } else { self.fps },
            r.width == match self.width {
                Some(w) => Some(if w > 320 { 320u32 } else { w }),
                None => None,
            },
            r.height == match self.height {
                Some(h) => Some(if h > 240 { 240u32 } else { h }),
                None => None,
            },
            r.quality_micro == self.quality_micro,
            r.speed_micro == self.speed_micro,
            r.bounce == self.bounce,
            r.crop == self.crop,
            r.segments@ == self.segments@,
    {
        let mut r = self.with_segments(self.copy_segments());
        if r.fps > 8 {
            r.fps = 8;
        }
        r.width = match self.width {
            Some(w) => Some(if w > 320 { 320 } else { w }),
            None => None,
        };
        r.height = match self.height {
            Some(h) => Some(if h > 240 { 240 } else { h }),
            None => None,
        };
        r
    }

    /// The encoding jobs of a run: in split mode one per segment, holding
    /// only that segment; otherwise one job with every segment.
    pub fn conversion_jobs(&self) -> (r: Vec<ConversionSettings>)
        ensures
            self.spec_is_split() ==> r@.len() == self.segments@.len() && forall|i: int|
                0 <= i < r@.len() ==> (#[trigger] r@[i]).same_but_segments(self) && r@[i].segments@ == seq![
                    self.segments@[i],
                ],
            !self.spec_is_split() ==> r@.len() == 1 && r@[0].same_but_segments(self) && r@[0].segments@
                == self.segments@,
    {
        let mut jobs: Vec<ConversionSettings> = Vec::new();
        if self.is_split() {
            let mut i: usize = 0;
            while i < self.segments.len()
                invariant
                    i <= self.segments@.len(),
                    jobs@.len() == i,
                    forall|j: int|
                        0 <= j < i ==> (#[trigger] jobs@[j]).same_but_segments(self) && jobs@[j].segments@
                            == seq![self.segments@[j]],
                decreases self.segments@.len() - i,
            {
                let mut one: Vec<TrimSegment> = Vec::new();
                one.push(self.segments[i]);
                jobs.push(self.with_segments(one));
                i = i + 1;
            }
        } else {
            let all = self.copy_segments();
            jobs.push(self.with_segments(all));
        }
        jobs
    }

    /// Frames the whole run is expected to produce, summed over segments.
    pub open spec fn spec_estimated_total(&self) -> nat {
        spec_estimate_prefix(
            self.segments@,
            self.segments@.len() as int,
            self.speed_micro as nat,
            self.fps as nat,
            self.bounce,
        )
    }

    pub open spec fn spec_is_split(&self) -> bool {
        self.segment_mode == SegmentMode::Split && self.segments@.len() > 1
    }

    /// Whether segments are encoded one by one rather than as one timeline.
    pub fn is_split(&self) -> (r: bool)
        ensures
            r == self.spec_is_split(),
    {
        self.segment_mode == SegmentMode::Split && self.segments.len() > 1
    }

    /// The encoder's settings: quality mapped to `1..=100`, the requested
    /// output size, and the loop policy (a zero loop count plays once).
    pub fn encoder_config(&self) -> (r: EncoderConfig)
        ensures
            r.width == self.width,
            r.height == self.height,
            r.quality as nat == spec_encoder_quality(self.quality_micro as nat),
            r.repeat == spec_loop_policy(self.loop_forever, self.loop_count),
    {
        let q = self.quality_micro;
        let r: u64 = q / 10_000 + if q % 10_000 >= 5_000 { 1 } else { 0 };
        let quality: u8 = if r < 1 {
            1
        } else if r > 100 {
            100
        } else {
            r as u8
        };
        let repeat = if self.loop_forever {
            LoopPolicy::Infinite
        } else if self.loop_count > 65535 {
            LoopPolicy::Finite(65535)
        } else {
            LoopPolicy::Finite(self.loop_count as u16)
        };
        EncoderConfig { width: self.width, height: self.height, quality, repeat }
    }
}

/// Scales the size of an estimation run at `estimate_fps` up to
/// `original_fps`: `floor(bytes * original_fps / max(estimate_fps, 1))`,
/// capped at `u64::MAX`.
pub fn scale_estimate(bytes: u64, original_fps: u32, estimate_fps: u32) -> (r: u64)
    ensures
        ({
            let d = if estimate_fps == 0 { 1nat } else { estimate_fps as nat };
            let v = bytes as nat * original_fps as nat / d;
            r == if v > u64::MAX { u64::MAX as nat } else { v }
        }),
{
    let d: u128 = if estimate_fps == 0 {
        1
    } else {
        estimate_fps as u128
    };
    assert(bytes as nat * original_fps as nat <= u64::MAX as nat * u32::MAX as nat) by (nonlinear_arith)
        requires
            bytes <= u64::MAX,
            original_fps <= u32::MAX,
    ;
    let v: u128 = (bytes as u128 * original_fps as u128) / d;
    if v > u64::MAX as u128 {
        u64::MAX
    } else {
        v as u64
    }
}

/// The user's saved output preferences.
#[derive(Debug, Clone, Copy)]
pub struct AppSettings {
    /// In millionths.
    pub output_quality_micro: u64,
    /// In millionths.
    pub output_speed_micro: u64,
    pub output_fps: u32,
    pub loop_gif: bool,
    pub bounce_gif: bool,
    pub loop_count: u32,
}

impl Default for AppSettings {
    /// Best quality, normal speed, 10 frames per second, looping forever,
    /// no bounce.
    fn default() -> (r: AppSettings)
        ensures
            r.output_quality_micro == 1_000_000,
            r.output_speed_micro == 1_000_000,
            r.output_fps == 10,
            r.loop_gif,
            !r.bounce_gif,
            r.loop_count == 0,
    {
        AppSettings {
            output_quality_micro: 1_000_000,
            output_speed_micro: 1_000_000,
            output_fps: 10,
            loop_gif: true,
            bounce_gif: false,
            loop_count: 0,
        }
    }
}

} // verus!
