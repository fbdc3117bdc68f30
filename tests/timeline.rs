use videobricks::gif_run::{ExtractionStep, SegmentExtraction};
use videobricks::frames::{split_raw_frames, FrameData, FrameTime};
use videobricks::error::ConvertError;
use videobricks::progress::{progress_tick, ConversionProgress, SplitProgress};
use videobricks::settings::{ConversionSettings, LoopPolicy, SegmentMode, TrimSegment};
use videobricks::timeline::{assemble_timeline, feed_order};
use videobricks::timing::{expected_frame_count, with_bounce};

fn settings(segments: Vec<TrimSegment>, mode: SegmentMode, bounce: bool) -> ConversionSettings {
    ConversionSettings {
        source_path: "clip.mp4".to_string(),
        quality_micro: 900_000,
        width: None,
        height: None,
        fps: 10,
        speed_micro: 1_000_000,
        loop_forever: true,
        loop_count: 0,
        bounce,
        segments,
        segment_mode: mode,
        crop: None,
    }
}

fn two_segments() -> Vec<TrimSegment> {
    vec![
        TrimSegment { start_us: 0, end_us: 2_000_000 },
        TrimSegment { start_us: 5_000_000, end_us: 8_000_000 },
    ]
}

fn frame(tag: u8, noisy_ts: u64) -> FrameData {
    FrameData {
        index: 7,
        timestamp: FrameTime { ticks: noisy_ts, rate: 1000 },
        width: 1,
        height: 1,
        rgba: vec![tag, tag, tag, 255],
    }
}

#[test]
fn expected_count_is_ceiling_of_duration_times_fps() {
    assert_eq!(expected_frame_count(0, 2_000_000, 1_000_000, 10), 20);
    assert_eq!(expected_frame_count(5_000_000, 8_000_000, 1_000_000, 10), 30);
    assert_eq!(expected_frame_count(0, 2_000_000, 2_000_000, 10), 10);
    assert_eq!(expected_frame_count(0, 250_000, 1_000_000, 10), 3);
    assert_eq!(expected_frame_count(0, 1_000_000, 1_500_000, 3), 2);
}

#[test]
fn bounce_doubles_minus_one() {
    assert_eq!(with_bounce(20, true), 39);
    assert_eq!(with_bounce(20, false), 20);
    assert_eq!(with_bounce(1, true), 1);
}

#[test]
fn raw_stream_is_cut_into_whole_frames() {
    let data: Vec<u8> = (0..40u8).collect();
    let frames = split_raw_frames(&data, 2, 2, 10).unwrap();
    assert_eq!(frames.len(), 2);
    assert_eq!(frames[0].rgba, (0..16u8).collect::<Vec<u8>>());
    assert_eq!(frames[1].rgba, (16..32u8).collect::<Vec<u8>>());
    assert_eq!(frames[1].index, 1);
    assert_eq!(frames[1].timestamp, FrameTime { ticks: 1, rate: 10 });
}

#[test]
fn raw_stream_without_a_whole_frame_fails() {
    let data = vec![0u8; 15];
    assert!(matches!(split_raw_frames(&data, 2, 2, 10), Err(ConvertError::NoFrames)));
}

#[test]
fn merge_scenario_timeline_has_fifty_evenly_spaced_frames() {
    let s = settings(two_segments(), SegmentMode::Merge, false);
    assert_eq!(s.estimated_total(), 50);
    let first: Vec<FrameData> = (0..20u64).map(|i| frame(1, i * 103 + 5)).collect();
    let second: Vec<FrameData> = (0..30u64).map(|i| frame(2, i * 97 + 3)).collect();
    let timeline = assemble_timeline(vec![first, second], 10);
    assert_eq!(timeline.len(), 50);
    for (i, f) in timeline.iter().enumerate() {
        assert_eq!(f.index, i);
        assert_eq!(f.timestamp, FrameTime { ticks: i as u64, rate: 10 });
        let secs = f.timestamp.ticks as f64 / f.timestamp.rate as f64;
        assert!((secs - i as f64 * 0.1).abs() < 1e-9);
    }
    assert_eq!(timeline[19].rgba[0], 1);
    assert_eq!(timeline[20].rgba[0], 2);
    let last = timeline[49].timestamp;
    assert!((last.ticks as f64 / last.rate as f64 - 4.9).abs() < 1e-9);
}

#[test]
fn empty_segments_give_empty_timeline() {
    let timeline = assemble_timeline(vec![Vec::new(), Vec::new()], 10);
    assert!(timeline.is_empty());
}

#[test]
fn bounce_feed_order_mirrors_frames() {
    let plan = feed_order(4, true, 10);
    let pairs: Vec<(usize, usize)> = plan.iter().map(|s| (s.index, s.source)).collect();
    assert_eq!(pairs, vec![(0, 0), (1, 1), (2, 2), (3, 3), (4, 2), (5, 1), (6, 0)]);
    for s in &plan {
        assert_eq!(s.timestamp, FrameTime { ticks: s.index as u64, rate: 10 });
    }
    let at = |k: usize| plan.iter().find(|s| s.index == k).unwrap().source;
    assert_eq!(plan.len(), 2 * 4 - 1);
    assert_eq!(at(4), 2);
    assert_eq!(at(6), 0);
}

#[test]
fn feed_order_without_bounce_is_identity() {
    let plan = feed_order(3, false, 25);
    let pairs: Vec<(usize, usize)> = plan.iter().map(|s| (s.index, s.source)).collect();
    assert_eq!(pairs, vec![(0, 0), (1, 1), (2, 2)]);
}

#[test]
fn split_scenario_progress_is_continuous() {
    let s = settings(two_segments(), SegmentMode::Split, false);
    assert!(s.is_split());
    let jobs = s.conversion_jobs();
    assert_eq!(jobs.len(), 2);
    assert_eq!(jobs[1].segments.len(), 1);
    assert_eq!(jobs[1].segments[0].start_us, 5_000_000);
    let mut p = SplitProgress::new(&s);
    assert_eq!(p.report(0), ConversionProgress { completed_frames: 0, total_frames: 50 });
    assert_eq!(p.report(20), ConversionProgress { completed_frames: 20, total_frames: 50 });
    p.finish_segment(20);
    assert_eq!(p.current_offset(), 20);
    assert_eq!(p.report(1), ConversionProgress { completed_frames: 21, total_frames: 50 });
    p.finish_segment(30);
    assert_eq!(p.final_progress(), ConversionProgress { completed_frames: 50, total_frames: 50 });
}

#[test]
fn split_progress_absorbs_drift_with_actual_totals() {
    let s = settings(two_segments(), SegmentMode::Split, false);
    let mut p = SplitProgress::new(&s);
    p.finish_segment(21);
    let r = p.report(0);
    assert_eq!(r.completed_frames, 21);
    assert_eq!(r.total_frames, 51);
    p.finish_segment(29);
    assert_eq!(p.final_progress(), ConversionProgress { completed_frames: 50, total_frames: 50 });
}

#[test]
fn merge_mode_runs_one_job() {
    let s = settings(two_segments(), SegmentMode::Merge, true);
    assert!(!s.is_split());
    let jobs = s.conversion_jobs();
    assert_eq!(jobs.len(), 1);
    assert_eq!(jobs[0].segments.len(), 2);
    assert_eq!(s.estimated_total(), 39 + 59);
}

#[test]
fn progress_tick_stops_on_cancel() {
    assert_eq!(progress_tick(true, 3, 10), None);
    assert_eq!(progress_tick(false, 3, 10), Some(ConversionProgress { completed_frames: 4, total_frames: 10 }));
}

#[test]
fn encoder_config_maps_quality_and_loops() {
    let mut s = settings(two_segments(), SegmentMode::Merge, false);
    s.quality_micro = 500_000;
    let c = s.encoder_config();
    assert_eq!(c.quality, 50);
    assert_eq!(c.repeat, LoopPolicy::Infinite);
    s.quality_micro = 4_000;
    s.loop_forever = false;
    assert_eq!(s.encoder_config().quality, 1);
    assert_eq!(s.encoder_config().repeat, LoopPolicy::Finite(0));
    s.quality_micro = 1_000_000;
    s.loop_count = 3;
    assert_eq!(s.encoder_config().quality, 100);
    assert_eq!(s.encoder_config().repeat, LoopPolicy::Finite(3));
    s.quality_micro = 125_000;
    assert_eq!(s.encoder_config().quality, 13);
}

#[test]
fn segment_extraction_runs_each_segment_then_assembles() {
    let s = settings(
        vec![TrimSegment { start_us: 0, end_us: 300_000 }, TrimSegment { start_us: 2_000_000, end_us: 2_200_000 }],
        SegmentMode::Merge,
        false,
    );
    let mut x = SegmentExtraction::new(&s, 2, 2);
    match x.step(false) {
        ExtractionStep::Run { args } => {
            assert_eq!(args[1], "0.000");
            assert_eq!(args[7], "trim=start=0:end=0.3,setpts=PTS-STARTPTS,fps=10,scale=2:2:flags=lanczos,format=rgba");
        },
        _ => panic!("expected a run"),
    }
    assert!(x.on_output(true, &vec![1u8; 16 * 3], "").is_none());
    match x.step(false) {
        ExtractionStep::Run { args } => assert_eq!(args[1], "1.000"),
        _ => panic!("expected a run"),
    }
    assert!(x.on_output(true, &vec![2u8; 16 * 2 + 5], "").is_none());
    match x.step(false) {
        ExtractionStep::Done { timeline } => {
            assert_eq!(timeline.len(), 5);
            assert_eq!(timeline[3].rgba[0], 2);
            assert_eq!(timeline[4].timestamp, FrameTime { ticks: 4, rate: 10 });
        },
        _ => panic!("expected the timeline"),
    }
}

#[test]
fn segment_extraction_stops_on_cancel_and_failure() {
    let s = settings(two_segments(), SegmentMode::Merge, false);
    let mut x = SegmentExtraction::new(&s, 2, 2);
    assert!(matches!(x.step(true), ExtractionStep::Failed { error: ConvertError::Cancelled }));
    let mut y = SegmentExtraction::new(&s, 2, 2);
    assert!(matches!(y.step(false), ExtractionStep::Run { .. }));
    assert!(matches!(y.on_output(false, &Vec::new(), "boom"), Some(ConvertError::ProcessFailure(_))));
    let short = settings(vec![TrimSegment { start_us: 0, end_us: 100_000 }], SegmentMode::Merge, false);
    let mut z = SegmentExtraction::new(&short, 2, 2);
    assert!(matches!(z.step(false), ExtractionStep::Failed { error: ConvertError::TooShort }));
}
