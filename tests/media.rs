use videobricks::shots::{result_line, shot_line, ShotProgress, ShotStage};
use videobricks::encoder::open_encoder;
use videobricks::error::ConvertError;
use videobricks::extract::{extraction_args, frames_from_run, plan_extraction};
use videobricks::filters::{render_filter, FilterStep};
use videobricks::frames::{extraction_geometry, export_crop, PixelCrop};
use videobricks::metadata::{
    check_file, check_metadata, metadata_from_probe, parse_frame_rate, parse_i32, ProbeReport, ProbeStream, SideData,
    VideoMetadata,
};
use videobricks::parse::{parse_micro, parse_u64};
use videobricks::registry::{register_pid, unregister_pid, ProcessRegistry};
use videobricks::settings::{CropRect, EncoderConfig, LoopPolicy, TrimSegment};
use videobricks::state::{bmp_url, gif_result, ConversionState};
use videobricks::text::{micro_text, millis_text};
use videobricks::thumbnails::{
    fallback_image, fallback_times, plan_thumbnails, single_frame_args, single_pass_args, single_pass_delivered, single_pass_images,
    split_bmp_stream,
};
use videobricks::tools::{get_ffmpeg, get_ffprobe, process_failure};

fn bmp(size: u32, fill: u8) -> Vec<u8> {
    let mut v = vec![0x42, 0x4D];
    v.extend_from_slice(&size.to_le_bytes());
    v.resize(size as usize, fill);
    v
}

#[test]
fn bmp_stream_splits_and_stops_at_garbage() {
    let images = vec![bmp(14, 1), bmp(20, 2), bmp(16, 3)];
    let mut data: Vec<u8> = images.concat();
    data.extend_from_slice(&[9, 9, 9]);
    let out = split_bmp_stream(&data).unwrap();
    assert_eq!(out, images);
}

#[test]
fn bmp_stream_stops_at_bad_magic_and_truncation() {
    let mut data = bmp(14, 1);
    data.extend_from_slice(&[0x41, 0x4D, 20, 0, 0, 0, 0, 0]);
    assert_eq!(split_bmp_stream(&data).unwrap().len(), 1);
    let mut cut = bmp(30, 1);
    cut.truncate(20);
    assert!(split_bmp_stream(&cut).unwrap().is_empty());
    let mut tiny = vec![0x42, 0x4D];
    tiny.extend_from_slice(&10u32.to_le_bytes());
    tiny.resize(20, 0);
    assert!(split_bmp_stream(&tiny).unwrap().is_empty());
    assert!(split_bmp_stream(&[]).unwrap().is_empty());
}

#[test]
fn decimal_texts() {
    assert_eq!(micro_text(2_500_000), "2.5");
    assert_eq!(micro_text(3_000_000), "3");
    assert_eq!(micro_text(1_234_567), "1.234567");
    assert_eq!(micro_text(50_000), "0.05");
    assert_eq!(millis_text(1_234_567), "1.235");
    assert_eq!(millis_text(0), "0.000");
    assert_eq!(millis_text(9_000_000), "9.000");
}

#[test]
fn filter_texts() {
    assert_eq!(
        render_filter(&FilterStep::Trim { start_us: 1_000_000, end_us: 3_000_000 }),
        "trim=start=1:end=3,setpts=PTS-STARTPTS"
    );
    assert_eq!(render_filter(&FilterStep::Retime { speed_micro: 1_500_000 }), "setpts=PTS/1.5");
    assert_eq!(render_filter(&FilterStep::Fps { rate_micro: 10_000_000 }), "fps=10");
    assert_eq!(
        render_filter(&FilterStep::Crop { crop: PixelCrop { width: 2, height: 4, x: 6, y: 8 } }),
        "crop=2:4:6:8"
    );
    assert_eq!(render_filter(&FilterStep::ScaleLanczos { width: 640, height: 360 }), "scale=640:360:flags=lanczos");
    assert_eq!(render_filter(&FilterStep::Rgba), "format=rgba");
}

#[test]
fn extraction_plan_and_arguments() {
    let seg = TrimSegment { start_us: 5_000_000, end_us: 8_000_000 };
    let plan = plan_extraction(&seg, 1_000_000, 10, None, 1920, 1080).unwrap();
    assert_eq!(plan.expected_frames, 30);
    assert_eq!(plan.seek_us, 4_000_000);
    assert_eq!(plan.read_us, 5_000_000);
    let args = extraction_args("in.mp4", &plan);
    assert_eq!(
        args,
        vec![
            "-ss",
            "4.000",
            "-t",
            "5.000",
            "-i",
            "in.mp4",
            "-vf",
            "trim=start=1:end=4,setpts=PTS-STARTPTS,fps=10,scale=1920:1080:flags=lanczos,format=rgba",
            "-pix_fmt",
            "rgba",
            "-f",
            "rawvideo",
            "-v",
            "error",
            "pipe:1",
        ]
    );
}

#[test]
fn extraction_plan_with_speed_and_crop() {
    let seg = TrimSegment { start_us: 0, end_us: 2_000_000 };
    let crop = CropRect { x_micro: 250_000, y_micro: 0, width_micro: 500_000, height_micro: 500_000 };
    let plan = plan_extraction(&seg, 2_000_000, 10, Some(crop), 1001, 501).unwrap();
    assert_eq!(plan.expected_frames, 10);
    let args = extraction_args("in.mp4", &plan);
    assert_eq!(
        args[7],
        "trim=start=0:end=2,setpts=PTS-STARTPTS,setpts=PTS/2,fps=10,crop=500:250:250:0,scale=500:250:flags=lanczos,format=rgba"
    );
}

#[test]
fn too_short_segment_is_refused() {
    let seg = TrimSegment { start_us: 0, end_us: 100_000 };
    assert!(matches!(plan_extraction(&seg, 1_000_000, 10, None, 64, 64), Err(ConvertError::TooShort)));
}

#[test]
fn failed_extraction_run_is_a_process_failure() {
    let seg = TrimSegment { start_us: 0, end_us: 1_000_000 };
    let plan = plan_extraction(&seg, 1_000_000, 10, None, 2, 2).unwrap();
    let r = frames_from_run(&plan, 10, false, &Vec::new(), "decoder exploded");
    match r {
        Err(ConvertError::ProcessFailure(m)) => assert_eq!(m, "FFmpeg frame extraction failed: decoder exploded"),
        _ => panic!("expected a process failure"),
    }
    let ok = frames_from_run(&plan, 10, true, &vec![7u8; 33], "").unwrap();
    assert_eq!(ok.len(), 2);
}

#[test]
fn geometry_is_even_and_at_least_two() {
    let g = extraction_geometry(1921, 1081, None);
    assert_eq!((g.out_width, g.out_height), (1920, 1080));
    let g = extraction_geometry(1, 1, None);
    assert_eq!((g.out_width, g.out_height), (2, 2));
    let c = CropRect { x_micro: 0, y_micro: 0, width_micro: 1, height_micro: 1 };
    let g = extraction_geometry(100, 100, Some(c));
    assert_eq!((g.out_width, g.out_height), (2, 2));
    assert_eq!(export_crop(100, 100, Some(c)), None);
}

#[test]
fn thumbnail_plan_caps_count_and_keeps_aspect() {
    let p = plan_thumbnails(1920, 1080, 60_000_000, 50, 90, None, None).unwrap();
    assert_eq!(p.count, 30);
    assert_eq!((p.width, p.height), (160, 90 - 0));
    assert_eq!(p.range_us, 60_000_000);
    assert_eq!(plan_thumbnails(1920, 1080, 60_000_000, 0, 90, None, None), None);
    assert_eq!(plan_thumbnails(1920, 1080, 60_000_000, 5, 90, Some(10_000_000), Some(10_000_000)), None);
    let r = plan_thumbnails(640, 480, 60_000_000, 4, 61, Some(2_000_000), Some(6_000_000)).unwrap();
    assert_eq!((r.width, r.height, r.start_us, r.range_us), (80, 60, 2_000_000, 4_000_000));
}

#[test]
fn thumbnail_arguments() {
    let p = plan_thumbnails(640, 480, 60_000_000, 4, 60, Some(2_000_000), Some(6_000_000)).unwrap();
    let a = single_pass_args("v.mp4", &p);
    assert_eq!(
        a,
        vec!["-ss", "2", "-t", "4", "-i", "v.mp4", "-vf", "fps=1,scale=80:60", "-f", "image2pipe", "-c:v", "bmp", "-v", "error", "pipe:1"]
    );
    assert_eq!(fallback_times(&p), vec![2_000_000, 3_000_000, 4_000_000, 5_000_000]);
    let b = single_frame_args("v.mp4", &p, 3_500_000);
    assert_eq!(b[1], "3.5");
    assert_eq!(b[7], "scale=80:60");
}

#[test]
fn fallback_samples_at_most_ten() {
    let p = plan_thumbnails(640, 480, 60_000_000, 30, 60, None, None).unwrap();
    let t = fallback_times(&p);
    assert_eq!(t.len(), 10);
    assert_eq!(t[1], 6_000_000);
}

#[test]
fn single_pass_outcome_decides_fallback() {
    let p = plan_thumbnails(640, 480, 60_000_000, 2, 60, None, None).unwrap();
    let r = single_pass_images(&p, false, &[], "nope".to_string());
    assert!(!single_pass_delivered(&r));
    let r = single_pass_images(&p, true, &[1, 2, 3], String::new());
    assert!(!single_pass_delivered(&r));
    let data = bmp(14, 0);
    let r = single_pass_images(&p, true, &data, String::new());
    assert!(single_pass_delivered(&r));
    let many: Vec<u8> = vec![bmp(14, 1), bmp(15, 2), bmp(16, 3)].concat();
    let r = single_pass_images(&p, true, &many, String::new()).unwrap();
    assert_eq!(r, vec![bmp(14, 1), bmp(15, 2)]);
    assert_eq!(fallback_image(true, vec![1]), Some(vec![1]));
    assert_eq!(fallback_image(true, Vec::new()), None);
    assert_eq!(fallback_image(false, vec![1]), None);
}

#[test]
fn registry_tracks_pids() {
    let mut reg = ProcessRegistry::new();
    register_pid(&mut reg, 10);
    register_pid(&mut reg, 20);
    register_pid(&mut reg, 10);
    unregister_pid(&mut reg, 10);
    assert_eq!(reg.pids(), &vec![20]);
    register_pid(&mut reg, 30);
    assert_eq!(reg.take_all(), vec![20, 30]);
    assert!(reg.pids().is_empty());
}

#[test]
fn missing_tools_are_not_found() {
    assert_eq!(get_ffmpeg(Some("ffmpeg".to_string())).unwrap(), "ffmpeg");
    match get_ffmpeg(None) {
        Err(ConvertError::NotFound(m)) => {
            assert_eq!(m, "FFmpeg not found. Please install FFmpeg and ensure it is in your PATH.")
        },
        _ => panic!("expected NotFound"),
    }
    assert!(matches!(get_ffprobe(None), Err(ConvertError::NotFound(_))));
}

#[test]
fn diagnostics_are_truncated() {
    let long = "x".repeat(1500);
    match process_failure("failed: ", &long) {
        ConvertError::ProcessFailure(m) => assert_eq!(m.len(), 8 + 1000),
        _ => panic!(),
    }
    match process_failure("failed: ", "short") {
        ConvertError::ProcessFailure(m) => assert_eq!(m, "failed: short"),
        _ => panic!(),
    }
}

#[test]
fn cancelled_run_leaves_no_result() {
    let mut st = ConversionState::new();
    let flag = st.begin_run();
    st.cancel();
    assert!(flag.load(std::sync::atomic::Ordering::Relaxed));
    let r = st.finish_run(Ok(vec![vec![1, 2, 3]]), true);
    assert!(matches!(r, Err(ConvertError::Cancelled)));
    assert!(st.first_result().is_none());
}

#[test]
fn completed_run_stores_results() {
    let mut st = ConversionState::new();
    st.begin_run();
    let r = st.finish_run(Ok(vec![b"GIF".to_vec(), b"GIF89".to_vec()]), false).unwrap();
    assert_eq!(r.len(), 2);
    assert_eq!(r[0].data_url, "data:image/gif;base64,R0lG");
    assert_eq!(r[0].file_size, 3);
    assert_eq!(r[1].data_url, "data:image/gif;base64,R0lGODk=");
    assert_eq!(st.first_result().unwrap(), &b"GIF".to_vec());
    assert_eq!(st.all_results().len(), 2);
    st.begin_run();
    assert!(st.first_result().is_none());
}

#[test]
fn failed_run_reports_its_error() {
    let mut st = ConversionState::new();
    st.begin_run();
    let r = st.finish_run(Err(ConvertError::NoFrames), false);
    assert!(matches!(r, Err(ConvertError::NoFrames)));
    assert!(st.all_results().is_empty());
}

#[test]
fn data_urls() {
    assert_eq!(gif_result(&vec![0xff]).data_url, "data:image/gif;base64,/w==");
    assert_eq!(bmp_url(&b"BM".to_vec()), "data:image/bmp;base64,Qk0=");
}

#[test]
fn encoder_opens_only_for_valid_settings() {
    let good = EncoderConfig { width: Some(320), height: None, quality: 90, repeat: LoopPolicy::Infinite };
    assert!(open_encoder(&good).is_ok());
    let bad = EncoderConfig { width: None, height: None, quality: 0, repeat: LoopPolicy::Finite(1) };
    assert!(matches!(open_encoder(&bad), Err(ConvertError::Encoder(_))));
    let huge = EncoderConfig { width: Some(70_000), height: None, quality: 50, repeat: LoopPolicy::Finite(1) };
    assert!(open_encoder(&huge).is_err());
}

#[test]
fn number_parsing() {
    assert_eq!(parse_micro("12.345000"), Some(12_345_000));
    assert_eq!(parse_micro("7"), Some(7_000_000));
    assert_eq!(parse_micro("0.1234567"), Some(123_456));
    assert_eq!(parse_micro("1."), Some(1_000_000));
    assert_eq!(parse_micro(".5"), None);
    assert_eq!(parse_micro("abc"), None);
    assert_eq!(parse_micro("1.2.3"), None);
    assert_eq!(parse_u64("12345"), Some(12345));
    assert_eq!(parse_u64(""), None);
    assert_eq!(parse_u64("99999999999999999999"), None);
    assert_eq!(parse_i32("-90"), Some(-90));
    assert_eq!(parse_i32("+180"), Some(180));
    assert_eq!(parse_i32("2147483648"), None);
    assert_eq!(parse_i32("-2147483648"), Some(i32::MIN));
}

#[test]
fn frame_rates() {
    assert_eq!(parse_frame_rate("30000/1001"), 29_970_029);
    assert_eq!(parse_frame_rate("25/1"), 25_000_000);
    assert_eq!(parse_frame_rate("24"), 24_000_000);
    assert_eq!(parse_frame_rate("30/0"), 30_000_000);
    assert_eq!(parse_frame_rate("x/2"), 15_000_000);
    assert_eq!(parse_frame_rate("junk"), 30_000_000);
}

fn stream(kind: &str) -> ProbeStream {
    ProbeStream {
        codec_type: Some(kind.to_string()),
        codec_name: None,
        width: None,
        height: None,
        r_frame_rate: None,
        duration: None,
        side_data: None,
        rotate_tag: None,
    }
}

#[test]
fn probe_report_to_metadata() {
    let mut video = stream("video");
    video.width = Some(1280);
    video.height = Some(720);
    video.codec_name = Some("h264".to_string());
    video.r_frame_rate = Some("60/1".to_string());
    video.rotate_tag = Some("-90".to_string());
    let mut turned = video.clone();
    turned.side_data = Some(vec![
        SideData { side_data_type: Some("Other".to_string()), rotation: Some(5) },
        SideData { side_data_type: Some("Display Matrix".to_string()), rotation: None },
        SideData { side_data_type: Some("Display Matrix".to_string()), rotation: Some(180) },
    ]);
    let turned_report = ProbeReport { streams: Some(vec![turned]), format_duration: None, format_size: None };
    assert_eq!(metadata_from_probe(&turned_report).unwrap().rotation, 180);
    let report = ProbeReport {
        streams: Some(vec![stream("audio"), video]),
        format_duration: Some("12.5".to_string()),
        format_size: Some("1048576".to_string()),
    };
    let m = metadata_from_probe(&report).unwrap();
    assert_eq!((m.width, m.height), (1280, 720));
    assert_eq!(m.codec, "h264");
    assert!(m.has_audio);
    assert_eq!(m.frame_rate_micro, 60_000_000);
    assert_eq!(m.duration_us, 12_500_000);
    assert_eq!(m.rotation, -90);
    assert_eq!(m.file_size, 1_048_576);
}

#[test]
fn probe_report_failures() {
    let none = ProbeReport { streams: None, format_duration: None, format_size: None };
    assert!(matches!(metadata_from_probe(&none), Err(ConvertError::Parse(_))));
    let audio_only = ProbeReport { streams: Some(vec![stream("audio")]), format_duration: None, format_size: None };
    match metadata_from_probe(&audio_only) {
        Err(ConvertError::Parse(m)) => assert_eq!(m, "No video stream found"),
        _ => panic!(),
    }
    let no_width = ProbeReport { streams: Some(vec![stream("video")]), format_duration: None, format_size: None };
    match metadata_from_probe(&no_width) {
        Err(ConvertError::Parse(m)) => assert_eq!(m, "Could not read video width"),
        _ => panic!(),
    }
}

fn meta(w: u32, h: u32, duration_us: u64, rate: u64) -> VideoMetadata {
    VideoMetadata {
        duration_us,
        width: w,
        height: h,
        frame_rate_micro: rate,
        codec: "h264".to_string(),
        has_audio: false,
        rotation: 0,
        file_size: 10,
    }
}

#[test]
fn validation_messages() {
    let v = check_file(false, Ok(10)).unwrap();
    assert_eq!(v.error.unwrap(), "File does not exist.");
    let v = check_file(true, Ok(0)).unwrap();
    assert_eq!(v.error.unwrap(), "File is empty.");
    assert!(check_file(true, Ok(5)).is_none());
    let v = check_metadata(Ok(meta(2, 2, 1_000_000, 30_000_000)));
    assert_eq!(v.error.unwrap(), "Video dimensions too small: 2x2. Minimum is 4x4.");
    let v = check_metadata(Ok(meta(640, 480, 0, 30_000_000)));
    assert_eq!(v.error.unwrap(), "Video has no duration or could not be read.");
    let v = check_metadata(Ok(meta(640, 480, 50_000, 30_000_000)));
    assert_eq!(v.error.unwrap(), "Video is too short. An animated GIF requires at least 2 frames.");
    let v = check_metadata(Ok(meta(640, 480, 100_000, 30_000_000)));
    assert!(v.is_valid);
    assert!(v.error.is_none());
    let v = check_metadata(Err(ConvertError::Parse("bad json".to_string())));
    assert_eq!(v.error.unwrap(), "Cannot read video metadata: bad json");
}

#[test]
fn shot_detector_lines() {
    let p = shot_line("[TransNetV2] Processing video frames 50/2710").unwrap();
    assert_eq!(p, ShotProgress { stage: ShotStage::Analyzing, current: 50, total: 2710 });
    let p = shot_line("[TransNetV2] Processing video frames x/ 9 ").unwrap();
    assert_eq!((p.current, p.total), (0, 9));
    assert_eq!(shot_line("[TransNetV2] Processing video frames 1/2/3"), None);
    assert_eq!(shot_line("[TransNetV2] Extracting frames from a.mp4").unwrap().stage, ShotStage::Extracting);
    assert_eq!(shot_line("[TransNetV2] Extracted 2710 frames").unwrap().stage, ShotStage::Analyzing);
    assert_eq!(shot_line("[TransNetV2] Found 38 scenes").unwrap().stage, ShotStage::Done);
    assert_eq!(shot_line("hello"), None);
    let lines = vec!["[1]".to_string(), "log".to_string(), "  [[0.0, 1.5]] ".to_string(), "done".to_string()];
    assert_eq!(result_line(&lines), Some(2));
    assert_eq!(result_line(&vec!["nothing".to_string()]), None);
}
