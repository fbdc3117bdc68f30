use vstd::prelude::*;
use crate::error::ConvertError;
use crate::filters::{FilterStep, render_chain, spec_render_chain};
use crate::frames::{even_at_least_2, spec_even_at_least_2};
use crate::text::{micro_text, push_arg, spec_micro_text, views};

verus! {

/// Most thumbnails one request yields.
pub const MAX_THUMBNAILS: usize = 30;

/// Most thumbnails the one-at-a-time fallback requests.
pub const MAX_FALLBACK_THUMBNAILS: usize = 10;

/// The little-endian 32-bit number in `data[at..at + 4]`.
pub open spec fn le_u32_at(data: Seq<u8>, at: int) -> nat {
    data[at] as nat + 256 * data[at + 1] as nat + 65536 * data[at + 2] as nat + 16777216 * data[at + 3] as nat
}

/// The images of a stream of concatenated BMP files, read from `off`: each
/// starts with `BM` and a little-endian total size of at least 14 bytes
/// that fits in what is left; the first header that does not stops the scan.
pub open spec fn spec_bmp_images(data: Seq<u8>, off: nat) -> Seq<Seq<u8>>
    decreases data.len() - off,
{
    if off + 6 > data.len() || data[off as int] != 0x42 || data[off + 1int] != 0x4D {
        Seq::empty()
    } else {
        let size = le_u32_at(data, off + 2int);
        if size < 14 || off + size > data.len() {
            Seq::empty()
        } else {
            seq![data.subrange(off as int, (off + size) as int)] + spec_bmp_images(data, off + size)
        }
    }
}

/// Splits a stream of concatenated BMP images into the images, stopping
/// cleanly at the first malformed or truncated header.
pub fn split_bmp_stream(data: &[u8]) -> (r: Result<Vec<Vec<u8>>, ConvertError>)
    ensures
        r matches Ok(images) && images@.map_values(|i: Vec<u8>| i@) == spec_bmp_images(data@, 0),
{
    let mut images: Vec<Vec<u8>> = Vec::new();
    let mut offset: usize = 0;
    let len = data.len();
    while offset <= len && len - offset >= 6
        invariant
            len == data@.len(),
            offset <= len,
            images@.map_values(|i: Vec<u8>| i@) + spec_bmp_images(data@, offset as nat) == spec_bmp_images(
                data@,
                0,
            ),
        ensures
            offset <= len,
            images@.map_values(|i: Vec<u8>| i@) + spec_bmp_images(data@, offset as nat) == spec_bmp_images(
                data@,
                0,
            ),
            spec_bmp_images(data@, offset as nat) == Seq::<Seq<u8>>::empty(),
        decreases len - offset,
    {
        if data[offset] != 0x42 || data[offset + 1] != 0x4D {
            break;
        }
        let size: u64 = data[offset + 2] as u64 + 256 * data[offset + 3] as u64 + 65536 * data[offset + 4] as u64
            + 16777216 * data[offset + 5] as u64;
        assert(size == le_u32_at(data@, offset + 2));
        if size < 14 || size > (len - offset) as u64 {
            break;
        }
        let end: usize = offset + size as usize;
        let mut img: Vec<u8> = Vec::new();
        img.extend_from_slice(&data[offset..end]);
        let ghost before = images@.map_values(|i: Vec<u8>| i@);
        images.push(img);
        proof {
            assert(img@ =~= data@.subrange(offset as int, end as int));
            assert(images@.map_values(|i: Vec<u8>| i@) =~= before.push(data@.subrange(offset as int, end as int)));
            assert(spec_bmp_images(data@, offset as nat) == seq![data@.subrange(offset as int, end as int)]
                + spec_bmp_images(data@, end as nat));
            assert(images@.map_values(|i: Vec<u8>| i@) + spec_bmp_images(data@, end as nat) =~= before
                + spec_bmp_images(data@, offset as nat));
        }
        offset = end;
    }
    proof {
        assert(images@.map_values(|i: Vec<u8>| i@) =~= spec_bmp_images(data@, 0));
    }
    Ok(images)
}

/// Where and how thumbnails are sampled.
#[derive(Debug, Clone, Copy, PartialEq, Eq, Structural)]
pub struct ThumbnailPlan {
    pub start_us: u64,
    pub range_us: u64,
    /// Thumbnails asked for, at most `MAX_THUMBNAILS`.
    pub count: usize,
    pub width: u32,
    pub height: u32,
}

/// `round(height * src_w / src_h)`, the width that keeps the aspect ratio,
/// capped at `u32::MAX`.
pub open spec fn spec_aspect_width(height: nat, src_w: nat, src_h: nat) -> nat {
    if src_h == 0 {
        0
    } else if (2 * height * src_w + src_h) / (2 * src_h) > u32::MAX {
        u32::MAX as nat
    } else {
        (2 * height * src_w + src_h) / (2 * src_h)
    }
}

/// The sampling plan: `count` capped at `MAX_THUMBNAILS`, over
/// `[start, end)` (by default the whole video), sized to `height` with the
/// source's aspect ratio, both sides even and at least 2. Nothing is
/// sampled from an empty range or for a count of zero.
pub open spec fn spec_thumbnail_plan(
    src_w: u32,
    src_h: u32,
    duration_us: u64,
    count: usize,
    height: u32,
    start: Option<u64>,
    end: Option<u64>,
) -> Option<ThumbnailPlan> {
    let s = match start {
        Some(v) => v,
        None => 0,
    };
    let e = match end {
        Some(v) => v,
        None => duration_us,
    };
    let n = if count > MAX_THUMBNAILS {
        MAX_THUMBNAILS
    } else {
        count
    };
    if e <= s || n == 0 {
        None
    } else {
        Some(
            ThumbnailPlan {
                start_us: s,
                range_us: (e - s) as u64,
                count: n,
                width: spec_even_at_least_2(spec_aspect_width(height as nat, src_w as nat, src_h as nat)) as u32,
                height: spec_even_at_least_2(height as nat) as u32,
            },
        )
    }
}

/// Plans a thumbnail request; `None` when nothing is to be sampled.
pub fn plan_thumbnails(
    src_w: u32,
    src_h: u32,
    duration_us: u64,
    count: usize,
    height: u32,
    start: Option<u64>,
    end: Option<u64>,
) -> (r: Option<ThumbnailPlan>)
    ensures
        r == spec_thumbnail_plan(src_w, src_h, duration_us, count, height, start, end),
{
    let s = match start {
        Some(v) => v,
        None => 0,
    };
    let e = match end {
        Some(v) => v,
        None => duration_us,
    };
    let n = if count > MAX_THUMBNAILS {
        MAX_THUMBNAILS
    } else {
        count
    };
    if e <= s || n == 0 {
        return None;
    }
    let aspect: u64 = if src_h == 0 {
        0
    } else {
        assert(2 * height as nat * src_w as nat + src_h as nat <= 4 * u32::MAX as nat * u32::MAX as nat) by (
        nonlinear_arith)
            requires
                height <= u32::MAX,
                src_w <= u32::MAX,
                src_h <= u32::MAX,
        ;
        let num: u128 = 2 * (height as u128) * (src_w as u128) + src_h as u128;
        let q: u128 = num / (2 * src_h as u128);
        if q > u32::MAX as u128 {
            u32::MAX as u64
        } else {
            q as u64
        }
    };
    let w: u32 = aspect as u32;
    Some(
        ThumbnailPlan {
            start_us: s,
            range_us: e - s,
            count: n,
            width: even_at_least_2(w),
            height: even_at_least_2(height),
        },
    )
}

/// Sampling rate of the single pass, in millionths of a frame per second:
/// `count / range` (rounded down).
pub open spec fn spec_sample_rate(p: ThumbnailPlan) -> nat {
    (p.count * 1_000_000_000_000) as nat / p.range_us as nat
}

/// The single-pass filters: resample to the sampling rate, then scale.
pub open spec fn spec_single_pass_filters(p: ThumbnailPlan) -> Seq<FilterStep> {
    seq![
        FilterStep::Fps { rate_micro: spec_sample_rate(p) as u64 },
        FilterStep::Scale { width: p.width as u64, height: p.height as u64 },
    ]
}

/// One tool run for all thumbnails: seek to the range, read it, and emit
/// concatenated BMP images on standard output.
pub open spec fn spec_single_pass_args(path: Seq<char>, p: ThumbnailPlan) -> Seq<Seq<char>> {
    seq![
        "-ss"@,
        spec_micro_text(p.start_us as nat),
        "-t"@,
        spec_micro_text(p.range_us as nat),
        "-i"@,
        path,
        "-vf"@,
        spec_render_chain(spec_single_pass_filters(p)),
        "-f"@,
        "image2pipe"@,
        "-c:v"@,
        "bmp"@,
        "-v"@,
        "error"@,
        "pipe:1"@,
    ]
}

/// One tool run for a single thumbnail at `at_us`.
pub open spec fn spec_single_frame_args(path: Seq<char>, p: ThumbnailPlan, at_us: u64) -> Seq<Seq<char>> {
    seq![
        "-ss"@,
        spec_micro_text(at_us as nat),
        "-i"@,
        path,
        "-vframes"@,
        "1"@,
        "-vf"@,
        spec_render_chain(seq![FilterStep::Scale { width: p.width as u64, height: p.height as u64 }]),
        "-f"@,
        "image2"@,
        "-c:v"@,
        "bmp"@,
        "-v"@,
        "error"@,
        "pipe:1"@,
    ]
}

/// Arguments of the single-pass run.
pub fn single_pass_args(path: &str, p: &ThumbnailPlan) -> (r: Vec<String>)
    requires
        p.range_us > 0,
        p.count <= MAX_THUMBNAILS,
    ensures
        views(r@) == spec_single_pass_args(path@, *p),
{
    let rate: u64 = (p.count as u64 * 1_000_000_000_000) / p.range_us;
    let mut filters: Vec<FilterStep> = Vec::new();
    filters.push(FilterStep::Fps { rate_micro: rate });
    filters.push(FilterStep::Scale { width: p.width as u64, height: p.height as u64 });
    assert(filters@ =~= spec_single_pass_filters(*p));
    let mut v: Vec<String> = Vec::new();
    push_arg(&mut v, "-ss");
    push_arg(&mut v, micro_text(p.start_us).as_str());
    push_arg(&mut v, "-t");
    push_arg(&mut v, micro_text(p.range_us).as_str());
    push_arg(&mut v, "-i");
    push_arg(&mut v, path);
    push_arg(&mut v, "-vf");
    push_arg(&mut v, render_chain(&filters).as_str());
    push_arg(&mut v, "-f");
    push_arg(&mut v, "image2pipe");
    push_arg(&mut v, "-c:v");
    push_arg(&mut v, "bmp");
    push_arg(&mut v, "-v");
    push_arg(&mut v, "error");
    push_arg(&mut v, "pipe:1");
    assert(views(v@) =~= spec_single_pass_args(path@, *p));
    v
}

/// Arguments of a one-thumbnail run at `at_us`.
pub fn single_frame_args(path: &str, p: &ThumbnailPlan, at_us: u64) -> (r: Vec<String>)
    ensures
        views(r@) == spec_single_frame_args(path@, *p, at_us),
{
    let mut filters: Vec<FilterStep> = Vec::new();
    filters.push(FilterStep::Scale { width: p.width as u64, height: p.height as u64 });
    assert(filters@ =~= seq![FilterStep::Scale { width: p.width as u64, height: p.height as u64 }]);
    let mut v: Vec<String> = Vec::new();
    push_arg(&mut v, "-ss");
    push_arg(&mut v, micro_text(at_us).as_str());
    push_arg(&mut v, "-i");
    push_arg(&mut v, path);
    push_arg(&mut v, "-vframes");
    push_arg(&mut v, "1");
    push_arg(&mut v, "-vf");
    push_arg(&mut v, render_chain(&filters).as_str());
    push_arg(&mut v, "-f");
    push_arg(&mut v, "image2");
    push_arg(&mut v, "-c:v");
    push_arg(&mut v, "bmp");
    push_arg(&mut v, "-v");
    push_arg(&mut v, "error");
    push_arg(&mut v, "pipe:1");
    assert(views(v@) =~= spec_single_frame_args(path@, *p, at_us));
    v
}

/// The fallback's sampling times: `min(count, MAX_FALLBACK_THUMBNAILS)`
/// evenly spaced points, the `i`-th at `start + i * range / n`.
pub fn fallback_times(p: &ThumbnailPlan) -> (r: Vec<u64>)
    requires
        p.count > 0,
        p.start_us + p.range_us <= u64::MAX,
    ensures
        r@.len() == if p.count > MAX_FALLBACK_THUMBNAILS { MAX_FALLBACK_THUMBNAILS } else { p.count },
        forall|i: int|
            0 <= i < r@.len() ==> #[trigger] r@[i] == p.start_us + (i * p.range_us) / (r@.len() as int),
{
    let n: usize = if p.count > MAX_FALLBACK_THUMBNAILS {
        MAX_FALLBACK_THUMBNAILS
    } else {
        p.count
    };
    let mut v: Vec<u64> = Vec::new();
    let mut i: usize = 0;
    while i < n
        invariant
            1 <= n <= MAX_FALLBACK_THUMBNAILS,
            p.start_us + p.range_us <= u64::MAX,
            i <= n,
            v@.len() == i,
            forall|j: int| 0 <= j < i ==> #[trigger] v@[j] == p.start_us + (j * p.range_us) / (n as int),
        decreases n - i,
    {
        assert((i as nat * p.range_us as nat) / (n as nat) <= p.range_us) by (nonlinear_arith)
            requires
                i < n,
                n >= 1,
        {
            assert(i as nat * p.range_us as nat <= n as nat * p.range_us as nat);
        }
        assert(i as nat * p.range_us as nat <= 10 * u64::MAX) by (nonlinear_arith)
            requires
                i < 10,
        ;
        let off: u128 = (i as u128 * p.range_us as u128) / n as u128;
        v.push(p.start_us + off as u64);
        i = i + 1;
    }
    v
}

/// The first `count` of `images`, or all of them when there are fewer.
pub open spec fn first_n(images: Seq<Seq<u8>>, count: nat) -> Seq<Seq<u8>> {
    if images.len() <= count {
        images
    } else {
        images.take(count as int)
    }
}

/// The single pass's images, up to the plan's count, or why there are
/// none: a failed run is a `ProcessFailure` carrying its diagnostics.
pub fn single_pass_images(p: &ThumbnailPlan, succeeded: bool, stdout: &[u8], stderr: String) -> (r: Result<
    Vec<Vec<u8>>,
    ConvertError,
>)
    ensures
        succeeded ==> (r matches Ok(images) && images@.map_values(|i: Vec<u8>| i@) == first_n(
            spec_bmp_images(stdout@, 0),
            p.count as nat,
        )),
        !succeeded ==> (r matches Err(ConvertError::ProcessFailure(m)) && m == stderr),
{
    if succeeded {
        let mut images = match split_bmp_stream(stdout) {
            Ok(images) => images,
            Err(e) => {
                return Err(e);
            },
        };
        let ghost all = images@.map_values(|i: Vec<u8>| i@);
        if images.len() > p.count {
            images.truncate(p.count);
            assert(images@.map_values(|i: Vec<u8>| i@) =~= all.take(p.count as int));
        }
        Ok(images)
    } else {
        Err(ConvertError::ProcessFailure(stderr))
    }
}

/// The image a one-thumbnail run gives: its output, when the run succeeded
/// and wrote something; otherwise that timestamp is skipped.
pub fn fallback_image(succeeded: bool, stdout: Vec<u8>) -> (r: Option<Vec<u8>>)
    ensures
        (succeeded && stdout@.len() > 0) ==> (r matches Some(img) && img@ == stdout@),
        !(succeeded && stdout@.len() > 0) ==> r is None,
{
    if succeeded && stdout.len() > 0 {
        Some(stdout)
    } else {
        None
    }
}

/// Whether the single pass delivered; otherwise the one-at-a-time fallback runs.
pub fn single_pass_delivered(r: &Result<Vec<Vec<u8>>, ConvertError>) -> (b: bool)
    ensures
        b == (r matches Ok(images) && images@.len() > 0),
{
    match r {
        Ok(images) => images.len() > 0,
        Err(_) => false,
    }
}

/// A complete BMP file as the splitter recognises it: `BM`, then its own
/// total length (at least 14) as a little-endian 32-bit number.
pub open spec fn well_formed_bmp(img: Seq<u8>) -> bool {
    &&& img.len() >= 14
    &&& img[0] == 0x42
    &&& img[1] == 0x4D
    &&& le_u32_at(img, 2) == img.len()
}

/// Splitting `M` well-formed images followed by a tail that cannot start an
/// image (shorter than a header, or not starting with `B`) gives back
/// exactly the `M` images.
pub proof fn lemma_split_concatenated(images: Seq<Seq<u8>>, tail: Seq<u8>)
    requires
        forall|i: int| 0 <= i < images.len() ==> well_formed_bmp(#[trigger] images[i]),
        tail.len() < 6 || tail[0] != 0x42,
    ensures
        spec_bmp_images(images.flatten() + tail, 0) == images,
{
    lemma_split_from(Seq::empty(), images, tail);
    assert(Seq::<u8>::empty() + images.flatten() + tail =~= images.flatten() + tail);
}

proof fn lemma_split_from(prefix: Seq<u8>, images: Seq<Seq<u8>>, tail: Seq<u8>)
    requires
        forall|i: int| 0 <= i < images.len() ==> well_formed_bmp(#[trigger] images[i]),
        tail.len() < 6 || tail[0] != 0x42,
    ensures
        spec_bmp_images(prefix + images.flatten() + tail, prefix.len()) == images,
    decreases images.len(),
{
    let data = prefix + images.flatten() + tail;
    let off = prefix.len() as int;
    if images.len() == 0 {
        assert(data =~= prefix + tail);
        if off + 6 <= data.len() {
            assert(data[off] == tail[0]);
        }
        assert(spec_bmp_images(data, off as nat) == Seq::<Seq<u8>>::empty());
        assert(images =~= Seq::<Seq<u8>>::empty());
    } else {
        let img = images[0];
        let rest = images.drop_first();
        assert(well_formed_bmp(img));
        assert forall|i: int| 0 <= i < rest.len() implies well_formed_bmp(#[trigger] rest[i]) by {
            assert(rest[i] == images[i + 1]);
        }
        assert(images.flatten() == img + rest.flatten());
        let next = prefix + img;
        assert(data =~= next + rest.flatten() + tail);
        assert(data.subrange(off, off + img.len()) =~= img);
        assert forall|k: int| 0 <= k < 6 implies data[off + k] == img[k] by {
            assert(data[off + k] == data.subrange(off, off + img.len())[k]);
        }
        assert(le_u32_at(data, off + 2) == le_u32_at(img, 2));
        lemma_split_from(next, rest, tail);
        assert(images =~= seq![img] + rest);
    }
}

} // verus!
