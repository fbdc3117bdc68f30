use videobricks::error::ConvertError;
use videobricks::frames::PixelCrop;
use videobricks::metadata::{check_file, ValidateResult, ValidationResult};
use videobricks::mp4::{clipboard_file_name, numbered_name, temp_job_dir, whole_range_args};
use videobricks::settings::{scale_estimate, AppSettings, ConversionSettings, CropRect, SegmentMode, TrimSegment};

fn base() -> ConversionSettings {
    ConversionSettings {
        source_path: "a.mov".to_string(),
        quality_micro: 800_000,
        width: Some(640),
        height: Some(480),
        fps: 15,
        speed_micro: 1_000_000,
        loop_forever: false,
        loop_count: 2,
        bounce: false,
        segments: vec![TrimSegment { start_us: 0, end_us: 3_000_000 }],
        segment_mode: SegmentMode::Merge,
        crop: None,
    }
}

#[test]
fn settings_validation() {
    assert!(base().validate().is_ok());
    let mut s = base();
    s.fps = 0;
    assert!(matches!(s.validate(), Err(ConvertError::Invalid(_))));
    let mut s = base();
    s.segments.push(TrimSegment { start_us: 5, end_us: 5 });
    assert!(matches!(s.validate(), Err(ConvertError::Invalid(_))));
    let mut s = base();
    s.segments.clear();
    assert!(s.validate().is_err());
    let mut s = base();
    s.crop = Some(CropRect { x_micro: 0, y_micro: 0, width_micro: 1_500_000, height_micro: 10 });
    assert!(s.validate().is_err());
    let mut s = base();
    s.speed_micro = 0;
    assert!(s.validate().is_err());
}

#[test]
fn estimation_and_preview_settings() {
    let e = base().estimation_settings();
    assert_eq!(e.fps, 5);
    assert_eq!(e.segments.len(), 1);
    let mut s = base();
    s.fps = 4;
    assert_eq!(s.estimation_settings().fps, 4);
    let p = base().preview_settings();
    assert_eq!((p.fps, p.width, p.height), (8, Some(320), Some(240)));
    let mut s = base();
    s.width = Some(200);
    s.height = None;
    let p = s.preview_settings();
    assert_eq!((p.width, p.height), (Some(200), None));
    assert_eq!(scale_estimate(1000, 15, 5), 3000);
    assert_eq!(scale_estimate(1000, 10, 0), 10_000);
    assert_eq!(scale_estimate(7, 2, 3), 4);
}

#[test]
fn app_settings_defaults() {
    let a = AppSettings::default();
    assert_eq!(a.output_quality_micro, 1_000_000);
    assert_eq!(a.output_speed_micro, 1_000_000);
    assert_eq!(a.output_fps, 10);
    assert!(a.loop_gif);
    assert!(!a.bounce_gif);
    assert_eq!(a.loop_count, 0);
}

#[test]
fn numbered_names() {
    assert_eq!(numbered_name("clip", "gif", 0, 1), "clip.gif");
    assert_eq!(numbered_name("clip", "gif", 0, 3), "clip_01.gif");
    assert_eq!(numbered_name("clip", "mov", 11, 12), "clip_12.mov");
}

#[test]
fn temp_names_are_fresh() {
    let a = temp_job_dir("/tmp");
    let b = temp_job_dir("/tmp");
    assert!(a.starts_with("/tmp/videobricks-mp4-"));
    assert_eq!(a.len(), "/tmp/videobricks-mp4-".len() + 36);
    assert_ne!(a, b);
    let c = clipboard_file_name();
    assert!(c.starts_with("videobricks-") && c.ends_with(".gif"));
    assert_eq!(c.len(), 12 + 36 + 4);
}

#[test]
fn whole_range_export_arguments() {
    let a = whole_range_args(
        "in.mp4",
        "out.mp4",
        Some(1_000_000),
        None,
        9_500_000,
        1_250_000,
        Some(PixelCrop { width: 100, height: 50, x: 0, y: 5 }),
        Some(320),
        None,
    );
    assert_eq!(
        a,
        vec![
            "-i",
            "in.mp4",
            "-vf",
            "trim=start=1:end=9.5,setpts=PTS-STARTPTS,setpts=PTS/1.25,crop=100:50:0:5",
            "-an",
            "-c:v",
            "libx264",
            "-preset",
            "fast",
            "-crf",
            "18",
            "-y",
            "out.mp4",
        ]
    );
    let b = whole_range_args("in.mp4", "o.mp4", None, Some(2_000_000), 0, 1_005_000, None, Some(320), Some(240));
    assert_eq!(b[3], "trim=start=0:end=2,setpts=PTS-STARTPTS,scale=320:240");
}

#[test]
fn file_checks_and_results() {
    let v = check_file(true, Err("permission denied".to_string())).unwrap();
    assert!(!v.is_valid);
    assert_eq!(v.error.clone().unwrap(), "Cannot read file: permission denied");
    let r = ValidateResult::from_validation(ValidationResult { is_valid: true, error: None, metadata: None });
    assert!(r.is_valid);
    assert!(r.error.is_none());
}

#[test]
fn error_messages() {
    assert_eq!(ConvertError::Cancelled.message(), "Conversion cancelled");
    assert_eq!(ConvertError::TooShort.message(), "Video is too short - need at least 2 frames");
    assert_eq!(ConvertError::Io("disk full".to_string()).message(), "disk full");
}
