use videobricks::error::ConvertError;
use videobricks::frames::PixelCrop;
use videobricks::mp4::{concat_manifest, direct_path, ExportAction, Mp4Export};
use videobricks::settings::{SegmentMode, TrimSegment};

fn segs(n: u64) -> Vec<TrimSegment> {
    (0..n).map(|i| TrimSegment { start_us: i * 10_000_000, end_us: i * 10_000_000 + 2_000_000 }).collect()
}

fn export(n: u64, mode: SegmentMode) -> Mp4Export {
    Mp4Export::new(
        "in.mp4".to_string(),
        "out.mp4".to_string(),
        segs(n),
        mode,
        1_000_000,
        None,
        None,
        None,
        "/tmp/job".to_string(),
    )
    .unwrap()
}

fn args(a: &ExportAction) -> Vec<String> {
    match a {
        ExportAction::RunTool { args } => args.clone(),
        _ => panic!("expected a tool run"),
    }
}

#[test]
fn merge_export_joins_clips_and_removes_temp_dir() {
    let mut x = export(2, SegmentMode::Merge);
    match x.start() {
        ExportAction::CreateDir { path } => assert_eq!(path, "/tmp/job"),
        _ => panic!("expected the temp dir first"),
    }
    let a = x.on_step(Ok(0), false);
    let first = args(&a);
    assert_eq!(first.last().unwrap(), "/tmp/job/seg_000.mp4");
    assert_eq!(first[0..4], ["-ss", "0.000", "-t", "4.000"]);
    assert_eq!(
        first[7],
        "trim=start=0:end=2,setpts=PTS-STARTPTS,scale=trunc(iw/2)*2:trunc(ih/2)*2"
    );
    let a = x.on_step(Ok(100), false);
    let second = args(&a);
    assert_eq!(second.last().unwrap(), "/tmp/job/seg_001.mp4");
    assert_eq!(second[0..4], ["-ss", "9.000", "-t", "4.000"]);
    assert_eq!(second[7], "trim=start=1:end=3,setpts=PTS-STARTPTS,scale=trunc(iw/2)*2:trunc(ih/2)*2");
    assert_eq!(x.progress(), (1, 3));
    match x.on_step(Ok(100), false) {
        ExportAction::WriteFile { path, contents } => {
            assert_eq!(path, "/tmp/job/concat_list.txt");
            assert_eq!(contents, "file '/tmp/job/seg_000.mp4'\nfile '/tmp/job/seg_001.mp4'");
        },
        _ => panic!("expected the manifest"),
    }
    assert_eq!(x.progress(), (2, 3));
    let join = args(&x.on_step(Ok(0), false));
    assert_eq!(
        join,
        vec!["-f", "concat", "-safe", "0", "-i", "/tmp/job/concat_list.txt", "-c", "copy", "-y", "out.mp4"]
    );
    match x.on_step(Ok(4242), false) {
        ExportAction::RemoveDir { path } => assert_eq!(path, "/tmp/job"),
        _ => panic!("expected cleanup"),
    }
    assert_eq!(x.progress(), (3, 3));
    match x.on_step(Ok(0), false) {
        ExportAction::Finish { outcome: Ok(files) } => {
            assert_eq!(files.len(), 1);
            assert_eq!(files[0].file_path, "out.mp4");
            assert_eq!(files[0].file_size, 4242);
        },
        _ => panic!("expected success"),
    }
}

#[test]
fn failed_concat_still_removes_temp_dir() {
    let mut x = export(2, SegmentMode::Merge);
    x.start();
    x.on_step(Ok(0), false);
    x.on_step(Ok(1), false);
    x.on_step(Ok(1), false);
    x.on_step(Ok(0), false);
    match x.on_step(Err("bad join".to_string()), false) {
        ExportAction::RemoveDir { path } => assert_eq!(path, "/tmp/job"),
        _ => panic!("expected cleanup"),
    }
    match x.on_step(Ok(0), false) {
        ExportAction::Finish { outcome: Err(ConvertError::ProcessFailure(m)) } => assert_eq!(m, "bad join"),
        _ => panic!("expected the join failure"),
    }
}

#[test]
fn cancel_mid_merge_removes_temp_dir_then_reports_cancelled() {
    let mut x = export(3, SegmentMode::Merge);
    x.start();
    x.on_step(Ok(0), false);
    match x.on_step(Ok(10), true) {
        ExportAction::RemoveDir { path } => assert_eq!(path, "/tmp/job"),
        _ => panic!("expected cleanup"),
    }
    assert!(matches!(x.on_step(Ok(0), false), ExportAction::Finish { outcome: Err(ConvertError::Cancelled) }));
}

#[test]
fn temp_dir_failure_reports_io_error() {
    let mut x = export(2, SegmentMode::Merge);
    x.start();
    match x.on_step(Err("denied".to_string()), false) {
        ExportAction::Finish { outcome: Err(ConvertError::Io(m)) } => assert_eq!(m, "denied"),
        _ => panic!("expected an I/O failure"),
    }
}

#[test]
fn split_export_numbers_outputs() {
    let mut x = export(2, SegmentMode::Split);
    let a = args(&x.start());
    assert_eq!(a.last().unwrap(), "out_01.mp4");
    let b = args(&x.on_step(Ok(11), false));
    assert_eq!(b.last().unwrap(), "out_02.mp4");
    assert_eq!(x.progress(), (1, 2));
    match x.on_step(Ok(22), false) {
        ExportAction::Finish { outcome: Ok(files) } => {
            assert_eq!(files.len(), 2);
            assert_eq!(files[0].file_path, "out_01.mp4");
            assert_eq!(files[0].file_size, 11);
            assert_eq!(files[1].file_path, "out_02.mp4");
            assert_eq!(files[1].file_size, 22);
        },
        _ => panic!("expected success"),
    }
}

#[test]
fn single_segment_merge_writes_destination_directly() {
    let mut x = export(1, SegmentMode::Merge);
    let a = args(&x.start());
    assert_eq!(a.last().unwrap(), "out.mp4");
    assert!(matches!(x.on_step(Ok(5), false), ExportAction::Finish { outcome: Ok(_) }));
}

#[test]
fn failed_segment_in_split_mode_stops() {
    let mut x = export(2, SegmentMode::Split);
    x.start();
    assert!(matches!(
        x.on_step(Err("boom".to_string()), false),
        ExportAction::Finish { outcome: Err(ConvertError::ProcessFailure(_)) }
    ));
}

#[test]
fn no_segments_is_refused() {
    let r = Mp4Export::new(
        "in.mp4".to_string(),
        "out.mp4".to_string(),
        Vec::new(),
        SegmentMode::Merge,
        1_000_000,
        None,
        None,
        None,
        "/tmp/job".to_string(),
    );
    assert!(matches!(r, Err(ConvertError::NoSegments)));
}

#[test]
fn export_filters_with_speed_crop_and_size() {
    let mut x = Mp4Export::new(
        "in.mp4".to_string(),
        "clip.mp4".to_string(),
        vec![TrimSegment { start_us: 500_000, end_us: 1_500_000 }],
        SegmentMode::Split,
        2_000_000,
        Some(PixelCrop { width: 640, height: 360, x: 10, y: 20 }),
        Some(321),
        Some(240),
        "/tmp/job".to_string(),
    )
    .unwrap();
    let a = args(&x.start());
    assert_eq!(a[0..4], ["-ss", "0.000", "-t", "3.000"]);
    assert_eq!(
        a[7],
        "trim=start=0.5:end=1.5,setpts=PTS-STARTPTS,setpts=PTS/2,crop=640:360:10:20,scale=322:240"
    );
    assert_eq!(a[8..], ["-an", "-c:v", "libx264", "-preset", "fast", "-crf", "18", "-y", "clip.mp4"]);
}

#[test]
fn manifest_uses_forward_slashes() {
    let m = concat_manifest(&vec!["C:\\t\\a.mp4".to_string(), "C:\\t\\b.mp4".to_string()]);
    assert_eq!(m, "file 'C:/t/a.mp4'\nfile 'C:/t/b.mp4'");
}

#[test]
fn direct_paths_strip_extension_and_pad() {
    assert_eq!(direct_path("out.mp4", 0, 1), "out.mp4");
    assert_eq!(direct_path("out.mp4", 0, 2), "out_01.mp4");
    assert_eq!(direct_path("out.mp4.mp4", 9, 12), "out_10.mp4");
    assert_eq!(direct_path("movie", 99, 120), "movie_100.mp4");
}
