use vstd::prelude::*;
use crate::error::ConvertError;
use crate::filters::{FilterStep, render_chain, spec_render_chain};
use crate::frames::{
    crop_ok, extraction_geometry, raw_frame_at, spec_extraction_geometry, spec_frame_bytes, split_raw_frames,
    FrameData, FrameGeometry,
};
use crate::tools::{process_failure, spec_failure_text};
use crate::settings::{CropRect, TrimSegment, segment_ok};
use crate::text::{millis_text, push_arg, spec_millis_text, views};
use crate::timing::{expected_frame_count, spec_expected_frames};

verus! {

/// How far before a segment's start the tool seeks coarsely, in microseconds.
pub const SEEK_MARGIN_US: u64 = 1_000_000;

/// Coarse seek point: one margin before `start`, but not before zero.
pub open spec fn spec_seek_to(start_us: nat) -> nat {
    if start_us >= 1_000_000 {
        (start_us - 1_000_000) as nat
    } else {
        0
    }
}

/// How much input is read after the seek point: the segment, the margin and
/// one more second (capped at `u64::MAX`).
pub open spec fn spec_read_window(seg: TrimSegment) -> nat {
    let w = seg.end_us - seg.start_us + 2_000_000;
    if w > u64::MAX {
        u64::MAX as nat
    } else {
        w as nat
    }
}

/// The speed departs from normal by more than one percent.
pub open spec fn speed_differs(speed_micro: nat) -> bool {
    speed_micro > 1_010_000 || speed_micro < 990_000
}

/// The trim stage for `seg`, relative to the coarse seek point.
pub open spec fn spec_trim_step(seg: TrimSegment) -> FilterStep {
    let seek = spec_seek_to(seg.start_us as nat);
    FilterStep::Trim { start_us: (seg.start_us - seek) as u64, end_us: (seg.end_us - seek) as u64 }
}

pub open spec fn spec_retime_steps(speed_micro: u64) -> Seq<FilterStep> {
    if speed_differs(speed_micro as nat) {
        seq![FilterStep::Retime { speed_micro }]
    } else {
        Seq::empty()
    }
}

/// Frame extraction's chain: trim, retime (if the speed is not normal),
/// resample to `fps`, crop (if any), an explicit scale to the output size,
/// then RGBA.
pub open spec fn spec_extraction_filters(seg: TrimSegment, speed_micro: u64, fps: u32, g: FrameGeometry) -> Seq<FilterStep> {
    seq![spec_trim_step(seg)] + spec_retime_steps(speed_micro) + seq![FilterStep::Fps { rate_micro: (fps * 1_000_000) as u64 }]
        + match g.crop {
        Some(c) => seq![FilterStep::Crop { crop: c }],
        None => Seq::empty(),
    } + seq![FilterStep::ScaleLanczos { width: g.out_width, height: g.out_height }, FilterStep::Rgba]
}

/// Everything needed to pull one segment's frames from the tool.
pub struct ExtractionPlan {
    pub seek_us: u64,
    pub read_us: u64,
    pub filters: Vec<FilterStep>,
    pub geometry: FrameGeometry,
    pub expected_frames: u128,
}

/// `p` is the plan of extracting `seg` from a `src_w x src_h` source.
pub open spec fn plan_for(
    p: ExtractionPlan,
    seg: TrimSegment,
    speed_micro: u64,
    fps: u32,
    crop: Option<CropRect>,
    src_w: u32,
    src_h: u32,
) -> bool {
    &&& p.expected_frames == spec_expected_frames(seg.start_us as nat, seg.end_us as nat, speed_micro as nat, fps as nat)
    &&& p.expected_frames >= 2
    &&& p.seek_us == spec_seek_to(seg.start_us as nat)
    &&& p.read_us == spec_read_window(seg)
    &&& p.geometry == spec_extraction_geometry(src_w, src_h, crop)
    &&& p.filters@ == spec_extraction_filters(seg, speed_micro, fps, p.geometry)
}

/// The seek point, as `spec_seek_to` gives it.
pub fn seek_to(start_us: u64) -> (r: u64)
    ensures
        r == spec_seek_to(start_us as nat),
        r <= start_us,
{
    if start_us >= SEEK_MARGIN_US {
        start_us - SEEK_MARGIN_US
    } else {
        0
    }
}

/// The input window, as `spec_read_window` gives it.
pub fn read_window(seg: &TrimSegment) -> (r: u64)
    requires
        segment_ok(*seg),
    ensures
        r == spec_read_window(*seg),
{
    (seg.end_us - seg.start_us).saturating_add(2 * SEEK_MARGIN_US)
}

/// The trim stage for `seg`.
pub fn trim_step(seg: &TrimSegment) -> (r: FilterStep)
    requires
        segment_ok(*seg),
    ensures
        r == spec_trim_step(*seg),
{
    let seek = seek_to(seg.start_us);
    FilterStep::Trim { start_us: seg.start_us - seek, end_us: seg.end_us - seek }
}

/// Plans the extraction of `seg` from a `src_w x src_h` source: fails with
/// `TooShort` exactly when fewer than two frames are expected.
pub fn plan_extraction(
    seg: &TrimSegment,
    speed_micro: u64,
    fps: u32,
    crop: Option<CropRect>,
    src_w: u32,
    src_h: u32,
) -> (r: Result<ExtractionPlan, ConvertError>)
    requires
        segment_ok(*seg),
        speed_micro > 0,
        crop matches Some(c) ==> crop_ok(c),
    ensures
        match r {
            Ok(p) => plan_for(p, *seg, speed_micro, fps, crop, src_w, src_h),
            Err(e) => {
                &&& e is TooShort
                &&& spec_expected_frames(
                    seg.start_us as nat,
                    seg.end_us as nat,
                    speed_micro as nat,
                    fps as nat,
                ) < 2
            },
        },
{
    let expected = expected_frame_count(seg.start_us, seg.end_us, speed_micro, fps);
    if expected < 2 {
        return Err(ConvertError::TooShort);
    }
    let geometry = extraction_geometry(src_w, src_h, crop);
    let mut filters: Vec<FilterStep> = Vec::new();
    filters.push(trim_step(seg));
    if speed_micro > 1_010_000 || speed_micro < 990_000 {
        filters.push(FilterStep::Retime { speed_micro });
    }
    filters.push(FilterStep::Fps { rate_micro: fps as u64 * 1_000_000 });
    match geometry.crop {
        Some(c) => {
            filters.push(FilterStep::Crop { crop: c });
        },
        None => {},
    }
    filters.push(FilterStep::ScaleLanczos { width: geometry.out_width, height: geometry.out_height });
    filters.push(FilterStep::Rgba);
    assert(filters@ =~= spec_extraction_filters(*seg, speed_micro, fps, geometry));
    Ok(
        ExtractionPlan {
            seek_us: seek_to(seg.start_us),
            read_us: read_window(seg),
            filters,
            geometry,
            expected_frames: expected,
        },
    )
}

/// The tool's arguments for an extraction: fast seek before the input, a
/// bounded read, the filter chain, raw RGBA on standard output.
pub open spec fn spec_extraction_args(path: Seq<char>, p: ExtractionPlan) -> Seq<Seq<char>> {
    seq![
        "-ss"@,
        spec_millis_text(p.seek_us as nat),
        "-t"@,
        spec_millis_text(p.read_us as nat),
        "-i"@,
        path,
        "-vf"@,
        spec_render_chain(p.filters@),
        "-pix_fmt"@,
        "rgba"@,
        "-f"@,
        "rawvideo"@,
        "-v"@,
        "error"@,
        "pipe:1"@,
    ]
}

/// Builds the tool's argument list for an extraction plan.
pub fn extraction_args(path: &str, p: &ExtractionPlan) -> (r: Vec<String>)
    ensures
        views(r@) == spec_extraction_args(path@, *p),
{
    let mut v: Vec<String> = Vec::new();
    push_arg(&mut v, "-ss");
    push_arg(&mut v, millis_text(p.seek_us).as_str());
    push_arg(&mut v, "-t");
    push_arg(&mut v, millis_text(p.read_us).as_str());
    push_arg(&mut v, "-i");
    push_arg(&mut v, path);
    push_arg(&mut v, "-vf");
    push_arg(&mut v, render_chain(&p.filters).as_str());
    push_arg(&mut v, "-pix_fmt");
    push_arg(&mut v, "rgba");
    push_arg(&mut v, "-f");
    push_arg(&mut v, "rawvideo");
    push_arg(&mut v, "-v");
    push_arg(&mut v, "error");
    push_arg(&mut v, "pipe:1");
    assert(views(v@) =~= spec_extraction_args(path@, *p));
    v
}

/// Message prefix of a failed extraction run.
pub open spec fn extraction_failure_prefix() -> Seq<char> {
    "FFmpeg frame extraction failed: "@
}

/// The frames of a finished extraction run. A run that failed is a
/// `ProcessFailure` whose message is the extraction prefix and its
/// (truncated) diagnostics; otherwise the raw output is
/// cut into whole frames of the plan's output size, stamped `i / fps`.
pub fn frames_from_run(plan: &ExtractionPlan, fps: u32, succeeded: bool, stdout: &Vec<u8>, stderr: &str) -> (r:
    Result<Vec<FrameData>, ConvertError>)
    requires
        plan.geometry.out_width > 0,
        plan.geometry.out_height > 0,
        spec_frame_bytes(plan.geometry.out_width as nat, plan.geometry.out_height as nat) <= usize::MAX,
    ensures
        !succeeded ==> (r matches Err(ConvertError::ProcessFailure(m)) && m@ == spec_failure_text(
            extraction_failure_prefix(),
            stderr@,
        )),
        succeeded ==> match r {
            Ok(frames) => {
                &&& frames@.len() == stdout@.len() / spec_frame_bytes(
                    plan.geometry.out_width as nat,
                    plan.geometry.out_height as nat,
                )
                &&& frames@.len() >= 1
                &&& forall|i: int|
                    0 <= i < frames@.len() ==> #[trigger] raw_frame_at(
                        frames@[i],
                        stdout@,
                        i,
                        plan.geometry.out_width,
                        plan.geometry.out_height,
                        fps,
                    )
            },
            Err(e) => e is NoFrames && stdout@.len() < spec_frame_bytes(
                plan.geometry.out_width as nat,
                plan.geometry.out_height as nat,
            ),
        },
{
    if !succeeded {
        return Err(process_failure("FFmpeg frame extraction failed: ", stderr));
    }
    split_raw_frames(stdout, plan.geometry.out_width, plan.geometry.out_height, fps)
}

} // verus!
