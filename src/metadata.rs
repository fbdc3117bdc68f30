use vstd::prelude::*;
use crate::error::ConvertError;
use crate::text::{decimal_text, spec_decimal};
use crate::parse::{first_index, parse_micro, parse_u64, spec_parse_micro, spec_parse_u64};

verus! {

/// What the probe tool reports of one stream, as plain values.
#[derive(Debug, Clone)]
pub struct ProbeStream {
    pub codec_type: Option<String>,
    pub codec_name: Option<String>,
    pub width: Option<u64>,
    pub height: Option<u64>,
    /// Frame rate as the tool writes it, such as `30000/1001`.
    pub r_frame_rate: Option<String>,
    /// Duration in seconds, as text.
    pub duration: Option<String>,
    /// The stream's side data entries, in order; `None` when it lists none.
    pub side_data: Option<Vec<SideData>>,
    /// Rotation from the stream's `rotate` tag, as text.
    pub rotate_tag: Option<String>,
}

/// One side data entry of a stream.
#[derive(Debug, Clone)]
pub struct SideData {
    pub side_data_type: Option<String>,
    pub rotation: Option<i64>,
}

/// The rotation of the first display-matrix entry at or after `i` that
/// carries one within the 32-bit range.
pub open spec fn spec_display_rotation(sd: Seq<SideData>, i: int) -> Option<i32>
    decreases sd.len() - i,
{
    if i < 0 || i >= sd.len() {
        None
    } else if text_is(sd[i].side_data_type, "Display Matrix"@) && (sd[i].rotation matches Some(r) && i32::MIN
        <= r <= i32::MAX) {
        Some(sd[i].rotation.unwrap() as i32)
    } else {
        spec_display_rotation(sd, i + 1)
    }
}

pub open spec fn spec_stream_display_rotation(v: ProbeStream) -> Option<i32> {
    match v.side_data {
        Some(sd) => spec_display_rotation(sd@, 0),
        None => None,
    }
}

fn display_rotation(side_data: &Option<Vec<SideData>>) -> (r: Option<i32>)
    ensures
        r == match side_data {
            Some(sd) => spec_display_rotation(sd@, 0),
            None => None,
        },
{
    let sd = match side_data {
        Some(sd) => sd,
        None => {
            return None;
        },
    };
    let mut i: usize = 0;
    while i < sd.len()
        invariant
            i <= sd@.len(),
            side_data matches Some(x) && x@ == sd@,
            spec_display_rotation(sd@, 0) == spec_display_rotation(sd@, i as int),
        decreases sd@.len() - i,
    {
        if option_text_is(&sd[i].side_data_type, "Display Matrix") {
            match sd[i].rotation {
                Some(r) => {
                    if i32::MIN as i64 <= r && r <= i32::MAX as i64 {
                        return Some(r as i32);
                    }
                },
                None => {},
            }
        }
        i = i + 1;
    }
    None
}

/// What the probe tool reports of a file, as plain values.
#[derive(Debug, Clone)]
pub struct ProbeReport {
    pub streams: Option<Vec<ProbeStream>>,
    /// The container's duration in seconds, as text.
    pub format_duration: Option<String>,
    /// The file size in bytes, as text.
    pub format_size: Option<String>,
}

/// Facts about a source video.
#[derive(Debug, Clone)]
pub struct VideoMetadata {
    pub duration_us: u64,
    pub width: u32,
    pub height: u32,
    /// Frames per second, in millionths.
    pub frame_rate_micro: u64,
    pub codec: String,
    pub has_audio: bool,
    pub rotation: i32,
    pub file_size: u64,
}

/// Frame rate assumed where none can be read: 30 frames per second.
pub const DEFAULT_RATE_MICRO: u64 = 30_000_000;

/// Whether two texts are the same.
pub fn same_text(a: &str, b: &str) -> (r: bool)
    ensures
        r == (a@ == b@),
{
    let n = a.unicode_len();
    if n != b.unicode_len() {
        return false;
    }
    let mut i: usize = 0;
    while i < n
        invariant
            n == a@.len() == b@.len(),
            i <= n,
            forall|j: int| 0 <= j < i ==> a@[j] == b@[j],
        decreases n - i,
    {
        if a.get_char(i) != b.get_char(i) {
            return false;
        }
        i = i + 1;
    }
    assert(a@ =~= b@);
    true
}

pub open spec fn text_is(s: Option<String>, lit: Seq<char>) -> bool {
    s matches Some(t) && t@ == lit
}

fn option_text_is(s: &Option<String>, lit: &str) -> (r: bool)
    ensures
        r == text_is(*s, lit@),
{
    match s {
        Some(t) => same_text(t.as_str(), lit),
        None => false,
    }
}

/// `a / b` in millionths, capped at `u64::MAX`; the default rate when `b`
/// is zero.
pub open spec fn spec_rate_ratio(a: nat, b: nat) -> u64 {
    if b == 0 {
        DEFAULT_RATE_MICRO
    } else if a * 1_000_000 / b > u64::MAX {
        u64::MAX
    } else {
        (a * 1_000_000 / b) as u64
    }
}

/// A frame rate written `N/D` or `N`, in millionths of a frame per second.
/// An unreadable `N` counts as 30, an unreadable `D` as 1, and a zero `D`
/// or an unreadable plain number gives 30.
pub open spec fn spec_parse_frame_rate(s: Seq<char>) -> u64 {
    let k = first_index(s, '/') as int;
    if k < s.len() {
        let n = match spec_parse_micro(s.take(k)) {
            Some(v) => v,
            None => DEFAULT_RATE_MICRO,
        };
        let d = match spec_parse_micro(s.skip(k + 1)) {
            Some(v) => v,
            None => 1_000_000,
        };
        spec_rate_ratio(n as nat, d as nat)
    } else {
        match spec_parse_micro(s) {
            Some(v) => v,
            None => DEFAULT_RATE_MICRO,
        }
    }
}

/// Reads a frame rate such as `30000/1001`, in millionths.
pub fn parse_frame_rate(s: &str) -> (r: u64)
    ensures
        r == spec_parse_frame_rate(s@),
{
    let len = s.unicode_len();
    let mut k: usize = 0;
    while k < len && s.get_char(k) != '/'
        invariant
            k <= len == s@.len(),
            forall|j: int| 0 <= j < k ==> s@[j] != '/',
        decreases len - k,
    {
        k = k + 1;
    }
    proof {
        crate::parse::lemma_first_index(s@, '/', k as int);
    }
    if k < len {
        let num = s.substring_char(0, k);
        let den = s.substring_char(k + 1, len);
        assert(num@ =~= s@.take(k as int));
        assert(den@ =~= s@.skip(k + 1));
        let n: u64 = match parse_micro(num) {
            Some(v) => v,
            None => DEFAULT_RATE_MICRO,
        };
        let d: u64 = match parse_micro(den) {
            Some(v) => v,
            None => 1_000_000,
        };
        if d == 0 {
            DEFAULT_RATE_MICRO
        } else {
            let q: u128 = (n as u128 * 1_000_000) / d as u128;
            if q > u64::MAX as u128 {
                u64::MAX
            } else {
                q as u64
            }
        }
    } else {
        match parse_micro(s) {
            Some(v) => v,
            None => DEFAULT_RATE_MICRO,
        }
    }
}

/// A signed decimal integer with an optional `+` or `-` sign; `None` for
/// any other text or a value outside `i32`.
pub open spec fn spec_parse_i32(s: Seq<char>) -> Option<i32> {
    let neg = s.len() > 0 && s[0] == '-';
    let body = if s.len() > 0 && (s[0] == '-' || s[0] == '+') { s.skip(1) } else { s };
    match spec_parse_u64(body) {
        Some(v) => if neg && v <= 2147483648 {
            Some((-(v as int)) as i32)
        } else if !neg && v <= 2147483647 {
            Some(v as i32)
        } else {
            None
        },
        None => None,
    }
}

/// Parses a signed 32-bit decimal integer.
pub fn parse_i32(s: &str) -> (r: Option<i32>)
    ensures
        r == spec_parse_i32(s@),
{
    let len = s.unicode_len();
    let signed = len > 0 && (s.get_char(0) == '-' || s.get_char(0) == '+');
    let neg = len > 0 && s.get_char(0) == '-';
    let body = if signed {
        s.substring_char(1, len)
    } else {
        s
    };
    assert(signed ==> body@ =~= s@.skip(1));
    match parse_u64(body) {
        Some(v) => {
            if neg && v <= 2147483648 {
                Some((0 - v as i64) as i32)
            } else if !neg && v <= 2147483647 {
                Some(v as i32)
            } else {
                None
            }
        },
        None => None,
    }
}

pub open spec fn is_video(s: ProbeStream) -> bool {
    text_is(s.codec_type, "video"@)
}

pub open spec fn is_audio(s: ProbeStream) -> bool {
    text_is(s.codec_type, "audio"@)
}

/// Stream `i` is the first video stream.
pub open spec fn first_video_at(streams: Seq<ProbeStream>, i: int) -> bool {
    &&& 0 <= i < streams.len()
    &&& is_video(streams[i])
    &&& forall|j: int| 0 <= j < i ==> !is_video(#[trigger] streams[j])
}

/// Seconds written as text, in microseconds; unreadable text is `None`.
pub open spec fn spec_opt_micro(s: Option<String>) -> Option<u64> {
    match s {
        Some(t) => spec_parse_micro(t@),
        None => None,
    }
}

/// The metadata that the first video stream `v` of `report` gives.
pub open spec fn spec_metadata_of(report: ProbeReport, v: ProbeStream, has_audio: bool, m: VideoMetadata) -> bool {
    &&& m.width as u64 == v.width.unwrap()
    &&& m.height as u64 == v.height.unwrap()
    &&& m.has_audio == has_audio
    &&& m.codec@ == match v.codec_name {
        Some(c) => c@,
        None => "unknown"@,
    }
    &&& m.frame_rate_micro == match v.r_frame_rate {
        Some(r) => spec_parse_frame_rate(r@),
        None => spec_parse_frame_rate("30/1"@),
    }
    &&& m.duration_us == match spec_opt_micro(v.duration) {
        Some(d) => d,
        None => match spec_opt_micro(report.format_duration) {
            Some(d) => d,
            None => 0,
        },
    }
    &&& m.rotation == match spec_stream_display_rotation(v) {
        Some(r) => r,
        None => match v.rotate_tag {
            Some(t) => match spec_parse_i32(t@) {
                Some(r) => r,
                None => 0,
            },
            None => 0,
        },
    }
    &&& m.file_size == match report.format_size {
        Some(t) => match spec_parse_u64(t@) {
            Some(n) => n,
            None => 0,
        },
        None => 0,
    }
}

fn opt_micro(s: &Option<String>) -> (r: Option<u64>)
    ensures
        r == spec_opt_micro(*s),
{
    match s {
        Some(t) => parse_micro(t.as_str()),
        None => None,
    }
}

/// Builds the video's metadata from the probe report: the first video
/// stream gives size, codec (`unknown` if absent), frame rate (`30/1` if
/// absent), duration (the stream's, else the container's, else 0) and
/// rotation (display matrix, else tag, else 0); any audio stream sets
/// `has_audio`. Fails with `Parse` when the report lists no streams, has
/// no video stream, or lacks a readable width or height.
pub fn metadata_from_probe(report: &ProbeReport) -> (r: Result<VideoMetadata, ConvertError>)
    ensures
        match r {
            Ok(m) => report.streams matches Some(streams) && exists|i: int|
                first_video_at(streams@, i) && spec_metadata_of(
                    *report,
                    streams@[i],
                    exists|j: int| 0 <= j < streams@.len() && is_audio(#[trigger] streams@[j]),
                    m,
                ),
            Err(e) => e is Parse && match report.streams {
                None => true,
                Some(streams) => (forall|i: int| 0 <= i < streams@.len() ==> !is_video(#[trigger] streams@[i]))
                    || exists|i: int|
                    first_video_at(streams@, i) && (streams@[i].width matches Some(w) ==> w > u32::MAX) || exists|
                    i: int,
                |
                    first_video_at(streams@, i) && (streams@[i].height matches Some(h) ==> h > u32::MAX),
            },
        },
{
    let streams = match &report.streams {
        Some(s) => s,
        None => {
            return Err(ConvertError::Parse(String::from_str("No streams found in video")));
        },
    };
    let mut found: Option<usize> = None;
    let mut has_audio = false;
    let mut i: usize = 0;
    while i < streams.len()
        invariant
            i <= streams@.len(),
            found matches Some(k) ==> first_video_at(streams@, k as int) && k < i,
            found is None ==> forall|j: int| 0 <= j < i ==> !is_video(#[trigger] streams@[j]),
            has_audio == exists|j: int| 0 <= j < i && is_audio(#[trigger] streams@[j]),
        decreases streams@.len() - i,
    {
        let kind = &streams[i].codec_type;
        if found.is_none() && option_text_is(kind, "video") {
            found = Some(i);
        }
        if option_text_is(kind, "audio") {
            has_audio = true;
        }
        i = i + 1;
    }
    let k = match found {
        Some(k) => k,
        None => {
            return Err(ConvertError::Parse(String::from_str("No video stream found")));
        },
    };
    let v = &streams[k];
    let width: u32 = match v.width {
        Some(w) if w <= u32::MAX as u64 => w as u32,
        _ => {
            return Err(ConvertError::Parse(String::from_str("Could not read video width")));
        },
    };
    let height: u32 = match v.height {
        Some(h) if h <= u32::MAX as u64 => h as u32,
        _ => {
            return Err(ConvertError::Parse(String::from_str("Could not read video height")));
        },
    };
    let codec = match &v.codec_name {
        Some(c) => c.clone(),
        None => String::from_str("unknown"),
    };
    let frame_rate_micro = match &v.r_frame_rate {
        Some(r) => parse_frame_rate(r.as_str()),
        None => parse_frame_rate("30/1"),
    };
    let duration_us = match opt_micro(&v.duration) {
        Some(d) => d,
        None => match opt_micro(&report.format_duration) {
            Some(d) => d,
            None => 0,
        },
    };
    let rotation: i32 = match display_rotation(&v.side_data) {
        Some(r) => r,
        None => match &v.rotate_tag {
            Some(t) => match parse_i32(t.as_str()) {
                Some(r) => r,
                None => 0,
            },
            None => 0,
        },
    };
    let file_size: u64 = match &report.format_size {
        Some(t) => match parse_u64(t.as_str()) {
            Some(n) => n,
            None => 0,
        },
        None => 0,
    };
    let m = VideoMetadata { duration_us, width, height, frame_rate_micro, codec, has_audio, rotation, file_size };
    assert(first_video_at(streams@, k as int));
    Ok(m)
}

/// Whether a source video can be converted, why not, and what is known of it.
#[derive(Debug, Clone)]
pub struct ValidationResult {
    pub is_valid: bool,
    pub error: Option<String>,
    pub metadata: Option<VideoMetadata>,
}

/// The answer to a validation request, as handed to the user interface.
#[derive(Debug, Clone)]
pub struct ValidateResult {
    pub is_valid: bool,
    pub error: Option<String>,
    pub metadata: Option<VideoMetadata>,
}

impl ValidateResult {
    /// The answer for a validation outcome, field by field.
    pub fn from_validation(v: ValidationResult) -> (r: ValidateResult)
        ensures
            r.is_valid == v.is_valid,
            r.error == v.error,
            r.metadata == v.metadata,
    {
        ValidateResult { is_valid: v.is_valid, error: v.error, metadata: v.metadata }
    }
}

fn invalid(msg: String, metadata: Option<VideoMetadata>) -> (r: ValidationResult)
    ensures
        !r.is_valid,
        r.error == Some(msg),
        r.metadata == metadata,
{
    ValidationResult { is_valid: false, error: Some(msg), metadata }
}

/// `v` reports failure with exactly `msg`.
pub open spec fn fails_with(v: ValidationResult, msg: Seq<char>) -> bool {
    &&& !v.is_valid
    &&& match v.error {
        Some(m) => m@ == msg,
        None => false,
    }
}

/// The file-level checks: the file must exist and be non-empty. `None`
/// when both hold, else the failed validation.
pub fn check_file(exists: bool, size: Result<u64, String>) -> (r: Option<ValidationResult>)
    ensures
        !exists ==> match r {
            Some(v) => fails_with(v, "File does not exist."@) && v.metadata is None,
            None => false,
        },
        exists ==> match size {
            Err(e) => match r {
                Some(v) => fails_with(v, "Cannot read file: "@ + e@) && v.metadata is None,
                None => false,
            },
            Ok(n) => if n == 0 {
                match r {
                    Some(v) => fails_with(v, "File is empty."@) && v.metadata is None,
                    None => false,
                }
            } else {
                r is None
            },
        },
{
    if !exists {
        return Some(invalid(String::from_str("File does not exist."), None));
    }
    match size {
        Err(e) => Some(invalid(String::from_str("Cannot read file: ").concat(e.as_str()), None)),
        Ok(n) => if n == 0 {
            Some(invalid(String::from_str("File is empty."), None))
        } else {
            None
        },
    }
}

/// Shortest playable length: two frames at the source rate (at least one
/// frame per second), compared without rounding.
pub open spec fn too_short(duration_us: nat, frame_rate_micro: nat) -> bool {
    let rate = if frame_rate_micro < 1_000_000 { 1_000_000 } else { frame_rate_micro };
    duration_us * rate < 2_000_000_000_000
}

/// The checks on what the probe reported: metadata must be readable, the
/// picture at least 4x4, the duration positive and long enough for two
/// frames. Metadata, once read, is kept in the result.
pub fn check_metadata(metadata: Result<VideoMetadata, ConvertError>) -> (r: ValidationResult)
    ensures
        match metadata {
            Err(e) => r.metadata is None && fails_with(r, "Cannot read video metadata: "@ + e.spec_message()),
            Ok(md) => {
                &&& r.metadata == Some(md)
                &&& r.is_valid == (md.width >= 4 && md.height >= 4 && md.duration_us > 0 && !too_short(
                    md.duration_us as nat,
                    md.frame_rate_micro as nat,
                ))
                &&& (md.width < 4 || md.height < 4) ==> fails_with(
                    r,
                    "Video dimensions too small: "@ + spec_decimal(md.width as nat) + "x"@ + spec_decimal(
                        md.height as nat,
                    ) + ". Minimum is 4x4."@,
                )
                &&& (md.width >= 4 && md.height >= 4 && md.duration_us == 0) ==> fails_with(
                    r,
                    "Video has no duration or could not be read."@,
                )
                &&& (md.width >= 4 && md.height >= 4 && md.duration_us > 0 && too_short(
                    md.duration_us as nat,
                    md.frame_rate_micro as nat,
                )) ==> fails_with(r, "Video is too short. An animated GIF requires at least 2 frames."@)
                &&& r.is_valid ==> r.error is None
            },
        },
{
    let md = match metadata {
        Err(e) => {
            let msg = String::from_str("Cannot read video metadata: ").concat(e.message().as_str());
            return invalid(msg, None);
        },
        Ok(md) => md,
    };
    if md.width < 4 || md.height < 4 {
        let mut msg = String::from_str("Video dimensions too small: ");
        msg.append(decimal_text(md.width as u64).as_str());
        msg.append("x");
        msg.append(decimal_text(md.height as u64).as_str());
        msg.append(". Minimum is 4x4.");
        return invalid(msg, Some(md));
    }
    if md.duration_us == 0 {
        return invalid(String::from_str("Video has no duration or could not be read."), Some(md));
    }
    let rate: u64 = if md.frame_rate_micro < 1_000_000 {
        1_000_000
    } else {
        md.frame_rate_micro
    };
    assert(md.duration_us as nat * rate as nat <= u64::MAX as nat * u64::MAX as nat) by (nonlinear_arith)
        requires
            md.duration_us <= u64::MAX,
            rate <= u64::MAX,
    ;
    if (md.duration_us as u128) * (rate as u128) < 2_000_000_000_000 {
        return invalid(
            String::from_str("Video is too short. An animated GIF requires at least 2 frames."),
            Some(md),
        );
    }
    ValidationResult { is_valid: true, error: None, metadata: Some(md) }
}

} // verus!
