use vstd::prelude::*;
use crate::error::ConvertError;
use crate::extract::{
    extraction_args, extraction_failure_prefix, frames_from_run, plan_extraction, plan_for, spec_extraction_args,
    ExtractionPlan,
};
use crate::tools::spec_failure_text;
use crate::frames::{crop_ok, raw_frame_at, spec_extraction_geometry, spec_frame_bytes, FrameData};
use crate::settings::{ConversionSettings, CropRect, TrimSegment, segment_ok};
use crate::text::views;
use crate::timeline::{assemble_timeline, concat_frames, restamped};
use crate::timing::spec_expected_frames;

verus! {

/// What the driver of a frame extraction does next.
pub enum ExtractionStep {
    /// Run the frame tool with these arguments and hand back its output.
    Run { args: Vec<String> },
    /// Every segment was extracted; this is the assembled timeline.
    Done { timeline: Vec<FrameData> },
    /// The extraction stopped.
    Failed { error: ConvertError },
}

/// The extraction of every segment of a run, in settings order, followed by
/// timeline assembly. Cancellation is looked at before each segment.
pub struct SegmentExtraction {
    path: String,
    segments: Vec<TrimSegment>,
    speed_micro: u64,
    fps: u32,
    crop: Option<CropRect>,
    src_w: u32,
    src_h: u32,
    collected: Vec<Vec<FrameData>>,
    pending: Option<ExtractionPlan>,
    finished: bool,
}

impl SegmentExtraction {
    pub closed spec fn segments(&self) -> Seq<TrimSegment> {
        self.segments@
    }

    /// Frames of the segments extracted so far, one sequence per segment.
    pub closed spec fn collected(&self) -> Seq<Vec<FrameData>> {
        self.collected@
    }

    /// The plan of the run whose output is awaited, if any.
    pub closed spec fn pending_plan(&self) -> Option<ExtractionPlan> {
        self.pending
    }

    pub closed spec fn is_finished(&self) -> bool {
        self.finished
    }

    pub closed spec fn speed(&self) -> u64 {
        self.speed_micro
    }

    pub closed spec fn fps(&self) -> u32 {
        self.fps
    }

    pub closed spec fn crop(&self) -> Option<CropRect> {
        self.crop
    }

    pub closed spec fn src_w(&self) -> u32 {
        self.src_w
    }

    pub closed spec fn src_h(&self) -> u32 {
        self.src_h
    }

    /// Segment `k` yields at least two frames and its frame size fits
    /// `usize`, so its extraction can run.
    pub open spec fn can_run(&self, k: int) -> bool {
        let seg = self.segments()[k];
        let g = spec_extraction_geometry(self.src_w(), self.src_h(), self.crop());
        &&& spec_expected_frames(seg.start_us as nat, seg.end_us as nat, self.speed() as nat, self.fps() as nat) >= 2
        &&& spec_frame_bytes(g.out_width as nat, g.out_height as nat) <= usize::MAX
    }

    pub closed spec fn path(&self) -> Seq<char> {
        self.path@
    }

    pub closed spec fn wf(&self) -> bool {
        &&& self.collected@.len() <= self.segments@.len()
        &&& self.speed_micro > 0
        &&& forall|i: int| 0 <= i < self.segments@.len() ==> #[trigger] segment_ok(self.segments@[i])
        &&& self.crop matches Some(c) ==> crop_ok(c)
        &&& self.pending matches Some(p) ==> {
            &&& self.collected@.len() < self.segments@.len()
            &&& p.geometry.out_width > 0
            &&& p.geometry.out_height > 0
            &&& spec_frame_bytes(p.geometry.out_width as nat, p.geometry.out_height as nat) <= usize::MAX
        }
    }

    /// Starts extracting the segments of `settings` from a
    /// `src_w x src_h` source.
    pub fn new(settings: &ConversionSettings, src_w: u32, src_h: u32) -> (r: SegmentExtraction)
        requires
            settings.wf(),
        ensures
            r.wf(),
            r.segments() == settings.segments@,
            r.collected() == Seq::<Vec<FrameData>>::empty(),
            r.pending_plan() is None,
            !r.is_finished(),
            r.fps() == settings.fps,
            r.speed() == settings.speed_micro,
            r.crop() == settings.crop,
            r.src_w() == src_w,
            r.src_h() == src_h,
            r.path() == settings.source_path@,
    {
        let r = SegmentExtraction {
            path: settings.source_path.clone(),
            segments: settings.copy_segments(),
            speed_micro: settings.speed_micro,
            fps: settings.fps,
            crop: settings.crop,
            src_w,
            src_h,
            collected: Vec::new(),
            pending: None,
            finished: false,
        };
        assert(r.collected@ =~= Seq::<Vec<FrameData>>::empty());
        r
    }

    /// Decides the next step: stop if cancelled; assemble once every
    /// segment is in; otherwise plan the next segment and run the tool
    /// (`TooShort` if it yields fewer than two frames).
    pub fn step(&mut self, cancelled: bool) -> (r: ExtractionStep)
        requires
            old(self).wf(),
            old(self).pending_plan() is None,
            !old(self).is_finished(),
        ensures
            final(self).wf(),
            final(self).segments() == old(self).segments(),
            final(self).fps() == old(self).fps(),
            final(self).speed() == old(self).speed(),
            final(self).crop() == old(self).crop(),
            final(self).src_w() == old(self).src_w(),
            final(self).src_h() == old(self).src_h(),
            final(self).path() == old(self).path(),
            r is Run <==> !final(self).is_finished(),
            cancelled ==> (r matches ExtractionStep::Failed { error } && error is Cancelled),
            !cancelled && old(self).collected().len() == old(self).segments().len() ==> match r {
                ExtractionStep::Done { timeline } => {
                    &&& timeline@.len() == concat_frames(old(self).collected()).len()
                    &&& forall|i: int|
                        0 <= i < timeline@.len() ==> #[trigger] restamped(
                            timeline@[i],
                            concat_frames(old(self).collected())[i],
                            i,
                            old(self).fps(),
                        )
                },
                _ => false,
            },
            !cancelled && old(self).collected().len() < old(self).segments().len() ==> {
                let k = old(self).collected().len() as int;
                let seg = old(self).segments()[k];
                &&& (r is Run <==> old(self).can_run(k))
                &&& r is Run ==> final(self).collected() == old(self).collected() && (final(self).pending_plan() matches Some(p)
                    && plan_for(p, seg, old(self).speed(), old(self).fps(), old(self).crop(), old(self).src_w(), old(self).src_h())
                    && (r matches ExtractionStep::Run { args } && views(args@) == spec_extraction_args(old(self).path(), p)))
                &&& spec_expected_frames(seg.start_us as nat, seg.end_us as nat, old(self).speed() as nat, old(self).fps() as nat) < 2
                    ==> (r matches ExtractionStep::Failed { error } && error is TooShort)
                &&& (spec_expected_frames(seg.start_us as nat, seg.end_us as nat, old(self).speed() as nat, old(self).fps() as nat) >= 2
                    && !old(self).can_run(k)) ==> (r matches ExtractionStep::Failed { error } && error is Invalid)
            },
    {
        if cancelled {
            self.finished = true;
            return ExtractionStep::Failed { error: ConvertError::Cancelled };
        }
        let k = self.collected.len();
        if k == self.segments.len() {
            self.finished = true;
            let mut all: Vec<Vec<FrameData>> = Vec::new();
            std::mem::swap(&mut all, &mut self.collected);
            return ExtractionStep::Done { timeline: assemble_timeline(all, self.fps) };
        }
        let seg = self.segments[k];
        assert(segment_ok(self.segments@[k as int]));
        match plan_extraction(&seg, self.speed_micro, self.fps, self.crop, self.src_w, self.src_h) {
            Err(e) => {
                self.finished = true;
                ExtractionStep::Failed { error: e }
            },
            Ok(plan) => {
                let w = plan.geometry.out_width as u128;
                let h = plan.geometry.out_height as u128;
                assert(w * h * 4 <= 4 * u32::MAX as nat * u32::MAX as nat) by (nonlinear_arith)
                    requires
                        w <= u32::MAX,
                        h <= u32::MAX,
                ;
                if w * h * 4 > usize::MAX as u128 {
                    self.finished = true;
                    return ExtractionStep::Failed {
                        error: ConvertError::Invalid(String::from_str("Frame size too large")),
                    };
                }
                let args = extraction_args(self.path.as_str(), &plan);
                self.pending = Some(plan);
                ExtractionStep::Run { args }
            },
        }
    }

    /// Takes the output of the run asked for: a failed run or one without a
    /// whole frame ends the extraction with that error (returned); otherwise
    /// the segment's frames are kept and `None` is returned.
    pub fn on_output(&mut self, succeeded: bool, stdout: &Vec<u8>, stderr: &str) -> (r: Option<ConvertError>)
        requires
            old(self).wf(),
            old(self).pending_plan() is Some,
            !old(self).is_finished(),
        ensures
            final(self).wf(),
            final(self).pending_plan() is None,
            final(self).segments() == old(self).segments(),
            final(self).fps() == old(self).fps(),
            final(self).speed() == old(self).speed(),
            final(self).crop() == old(self).crop(),
            final(self).src_w() == old(self).src_w(),
            final(self).src_h() == old(self).src_h(),
            final(self).path() == old(self).path(),
            !succeeded ==> (r matches Some(ConvertError::ProcessFailure(m)) && m@ == spec_failure_text(
                extraction_failure_prefix(),
                stderr@,
            )),
            succeeded ==> {
                let p = old(self).pending_plan().unwrap();
                let bytes = spec_frame_bytes(p.geometry.out_width as nat, p.geometry.out_height as nat);
                &&& stdout@.len() >= bytes ==> r is None
                &&& stdout@.len() < bytes ==> (r matches Some(e) && e is NoFrames)
            },
            r is Some <==> final(self).is_finished(),
            r is None ==> {
                let p = old(self).pending_plan().unwrap();
                let frames = final(self).collected().last()@;
                &&& final(self).collected().drop_last() == old(self).collected()
                &&& final(self).collected().len() == old(self).collected().len() + 1
                &&& frames.len() == stdout@.len() / spec_frame_bytes(
                    p.geometry.out_width as nat,
                    p.geometry.out_height as nat,
                )
                &&& frames.len() >= 1
                &&& forall|i: int|
                    0 <= i < frames.len() ==> #[trigger] raw_frame_at(
                        frames[i],
                        stdout@,
                        i,
                        p.geometry.out_width,
                        p.geometry.out_height,
                        old(self).fps(),
                    )
            },
    {
        let mut pending: Option<ExtractionPlan> = None;
        std::mem::swap(&mut pending, &mut self.pending);
        let plan = match pending {
            Some(p) => p,
            None => {
                return None;
            },
        };
        proof {
            let bytes = spec_frame_bytes(plan.geometry.out_width as nat, plan.geometry.out_height as nat);
            if stdout@.len() < bytes {
                vstd::arithmetic::div_mod::lemma_basic_div(stdout@.len() as int, bytes as int);
            }
        }
        match frames_from_run(&plan, self.fps, succeeded, stdout, stderr) {
            Ok(frames) => {
                let ghost before = self.collected@;
                self.collected.push(frames);
                assert(self.collected@.drop_last() =~= before);
                None
            },
            Err(e) => {
                self.finished = true;
                Some(e)
            },
        }
    }
}

} // verus!
