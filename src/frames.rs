use vstd::prelude::*;
use crate::error::ConvertError;
use crate::settings::CropRect;
use crate::timing::MICROS;

verus! {

/// A presentation time of `ticks / rate` seconds.
#[derive(Debug, Clone, Copy, PartialEq, Eq, Structural)]
pub struct FrameTime {
    pub ticks: u64,
    pub rate: u32,
}

/// One decoded RGBA frame, owned by whichever stage holds it.
#[derive(Debug, Clone)]
pub struct FrameData {
    pub index: usize,
    pub timestamp: FrameTime,
    pub width: u32,
    pub height: u32,
    /// `width * height * 4` bytes, row by row.
    pub rgba: Vec<u8>,
}

/// A crop in source pixels.
#[derive(Debug, Clone, Copy, PartialEq, Eq, Structural)]
pub struct PixelCrop {
    pub width: u32,
    pub height: u32,
    pub x: u32,
    pub y: u32,
}

/// Crop and output size of an extraction run.
#[derive(Debug, Clone, Copy, PartialEq, Eq, Structural)]
pub struct FrameGeometry {
    pub crop: Option<PixelCrop>,
    pub out_width: u32,
    pub out_height: u32,
}

pub open spec fn spec_frame_bytes(width: nat, height: nat) -> nat {
    width * height * 4
}

/// Frame `i` of a raw stream of `width x height` RGBA frames at `fps`.
pub open spec fn raw_frame_at(f: FrameData, data: Seq<u8>, i: int, width: u32, height: u32, fps: u32) -> bool {
    let n = spec_frame_bytes(width as nat, height as nat) as int;
    &&& f.index == i
    &&& f.timestamp.ticks == i
    &&& f.timestamp.rate == fps
    &&& f.width == width
    &&& f.height == height
    &&& f.rgba@ == data.subrange(i * n, (i + 1) * n)
}

proof fn lemma_whole_frames(len: nat, fsz: nat)
    requires
        fsz > 0,
    ensures
        (len / fsz) * fsz <= len,
        len / fsz == 0 ==> len < fsz,
{
    vstd::arithmetic::div_mod::lemma_fundamental_div_mod(len as int, fsz as int);
    vstd::arithmetic::div_mod::lemma_mod_bound(len as int, fsz as int);
    vstd::arithmetic::mul::lemma_mul_is_commutative(fsz as int, (len / fsz) as int);
}

proof fn lemma_frame_in_bounds(len: nat, fsz: nat, i: nat)
    requires
        fsz > 0,
        i < len / fsz,
    ensures
        i * fsz + fsz == (i + 1) * fsz,
        (i + 1) * fsz <= len,
{
    lemma_whole_frames(len, fsz);
    vstd::arithmetic::mul::lemma_mul_inequality((i + 1) as int, (len / fsz) as int, fsz as int);
    vstd::arithmetic::mul::lemma_mul_is_distributive_add_other_way(fsz as int, i as int, 1);
}

/// Cuts a raw RGBA byte stream into whole frames, frame `i` stamped `i / fps`.
/// Trailing bytes that do not fill a frame are dropped; a stream without a
/// whole frame is `NoFrames`.
pub fn split_raw_frames(data: &Vec<u8>, width: u32, height: u32, fps: u32) -> (r: Result<
    Vec<FrameData>,
    ConvertError,
>)
    requires
        width > 0,
        height > 0,
        spec_frame_bytes(width as nat, height as nat) <= usize::MAX,
    ensures
        match r {
            Ok(frames) => {
                &&& frames@.len() == data@.len() / spec_frame_bytes(width as nat, height as nat)
                &&& frames@.len() >= 1
                &&& forall|i: int|
                    0 <= i < frames@.len() ==> #[trigger] raw_frame_at(
                        frames@[i],
                        data@,
                        i,
                        width,
                        height,
                        fps,
                    )
            },
            Err(e) => {
                &&& e is NoFrames
                &&& data@.len() < spec_frame_bytes(width as nat, height as nat)
            },
        },
{
    let ghost n = spec_frame_bytes(width as nat, height as nat);
    assert(width as nat * height as nat * 4 >= 4) by (nonlinear_arith)
        requires
            width > 0,
            height > 0,
    ;
    let fsz: usize = (width as usize) * (height as usize) * 4;
    assert(fsz == n);
    let len: usize = data.len();
    let count: usize = len / fsz;
    if count == 0 {
        proof {
            lemma_whole_frames(len as nat, fsz as nat);
        }
        return Err(ConvertError::NoFrames);
    }
    let mut frames: Vec<FrameData> = Vec::new();
    let mut i: usize = 0;
    while i < count
        invariant
            fsz == n,
            n == spec_frame_bytes(width as nat, height as nat),
            fsz >= 4,
            count == data@.len() / n,
            len == data@.len(),
            count == len / fsz,
            i <= count,
            frames@.len() == i,
            forall|j: int| 0 <= j < i ==> #[trigger] raw_frame_at(frames@[j], data@, j, width, height, fps),
        decreases count - i,
    {
        proof {
            lemma_whole_frames(len as nat, fsz as nat);
            lemma_frame_in_bounds(len as nat, fsz as nat, i as nat);
        }
        assert(i * fsz + fsz == (i + 1) * fsz) by (nonlinear_arith);
        let off: usize = i * fsz;
        let mut px: Vec<u8> = Vec::new();
        px.extend_from_slice(&data.as_slice()[off..off + fsz]);
        assert(px@ =~= data@.subrange(i * n, (i + 1) * n));
        frames.push(
            FrameData {
                index: i,
                timestamp: FrameTime { ticks: i as u64, rate: fps },
                width,
                height,
                rgba: px,
            },
        );
        i = i + 1;
    }
    Ok(frames)
}

/// The crop values are fractions of the frame.
pub open spec fn crop_ok(c: CropRect) -> bool {
    &&& c.x_micro <= MICROS
    &&& c.y_micro <= MICROS
    &&& c.width_micro <= MICROS
    &&& c.height_micro <= MICROS
}

/// `round(frac * px)`, the fraction given in millionths.
pub open spec fn spec_scale_round(frac_micro: nat, px: nat) -> nat {
    (frac_micro * px + 500_000) / 1_000_000
}

/// `max(v, 2)` rounded down to an even number.
pub open spec fn spec_even_at_least_2(v: nat) -> nat {
    if v < 2 {
        2
    } else {
        (v - v % 2) as nat
    }
}

/// The pixel crop of an extraction: each side at least 2 and even.
pub open spec fn spec_extraction_crop(c: CropRect, src_w: nat, src_h: nat) -> PixelCrop {
    PixelCrop {
        width: spec_even_at_least_2(spec_scale_round(c.width_micro as nat, src_w)) as u32,
        height: spec_even_at_least_2(spec_scale_round(c.height_micro as nat, src_h)) as u32,
        x: spec_scale_round(c.x_micro as nat, src_w) as u32,
        y: spec_scale_round(c.y_micro as nat, src_h) as u32,
    }
}

/// The pixel crop of a video export, left out when it rounds to nothing.
pub open spec fn spec_export_crop(c: CropRect, src_w: nat, src_h: nat) -> Option<PixelCrop> {
    let w = spec_scale_round(c.width_micro as nat, src_w);
    let h = spec_scale_round(c.height_micro as nat, src_h);
    if w > 0 && h > 0 {
        Some(
            PixelCrop {
                width: w as u32,
                height: h as u32,
                x: spec_scale_round(c.x_micro as nat, src_w) as u32,
                y: spec_scale_round(c.y_micro as nat, src_h) as u32,
            },
        )
    } else {
        None
    }
}

pub open spec fn spec_extraction_geometry(src_w: u32, src_h: u32, crop: Option<CropRect>) -> FrameGeometry {
    match crop {
        Some(c) => {
            let pc = spec_extraction_crop(c, src_w as nat, src_h as nat);
            FrameGeometry {
                crop: Some(pc),
                out_width: spec_even_at_least_2(pc.width as nat) as u32,
                out_height: spec_even_at_least_2(pc.height as nat) as u32,
            }
        },
        None => FrameGeometry {
            crop: None,
            out_width: spec_even_at_least_2(src_w as nat) as u32,
            out_height: spec_even_at_least_2(src_h as nat) as u32,
        },
    }
}

/// `round(frac * px)` for a fraction in millionths; never more than `px`.
pub fn scale_round(frac_micro: u64, px: u32) -> (r: u32)
    requires
        frac_micro <= MICROS,
    ensures
        r as nat == spec_scale_round(frac_micro as nat, px as nat),
        r <= px,
{
    assert(frac_micro * px <= 1_000_000 * u32::MAX) by (nonlinear_arith)
        requires
            frac_micro <= 1_000_000,
            px <= u32::MAX,
    ;
    let prod: u64 = frac_micro * (px as u64) + 500_000;
    assert(prod / 1_000_000 <= px) by (nonlinear_arith)
        requires
            prod == frac_micro * px + 500_000,
            frac_micro <= 1_000_000,
    {
        assert(prod < (px + 1) * 1_000_000);
    }
    (prod / 1_000_000) as u32
}

/// `max(v, 2)` rounded down to an even number.
pub fn even_at_least_2(v: u32) -> (r: u32)
    ensures
        r as nat == spec_even_at_least_2(v as nat),
        r >= 2,
        r % 2 == 0,
        v >= 2 ==> r <= v,
{
    if v < 2 {
        2
    } else {
        v - v % 2
    }
}

/// Crop and output size of frame extraction: the crop in pixels with even
/// sides of at least 2, and the output size the crop's (or the source's when
/// uncropped), forced even and at least 2.
pub fn extraction_geometry(src_w: u32, src_h: u32, crop: Option<CropRect>) -> (r: FrameGeometry)
    requires
        crop matches Some(c) ==> crop_ok(c),
    ensures
        r == spec_extraction_geometry(src_w, src_h, crop),
        r.out_width >= 2,
        r.out_height >= 2,
        r.out_width % 2 == 0,
        r.out_height % 2 == 0,
{
    match crop {
        Some(c) => {
            let pc = PixelCrop {
                width: even_at_least_2(scale_round(c.width_micro, src_w)),
                height: even_at_least_2(scale_round(c.height_micro, src_h)),
                x: scale_round(c.x_micro, src_w),
                y: scale_round(c.y_micro, src_h),
            };
            FrameGeometry {
                crop: Some(pc),
                out_width: even_at_least_2(pc.width),
                out_height: even_at_least_2(pc.height),
            }
        },
        None => FrameGeometry {
            crop: None,
            out_width: even_at_least_2(src_w),
            out_height: even_at_least_2(src_h),
        },
    }
}

/// Pixel crop of a video export: rounded, and dropped if either side is 0.
pub fn export_crop(src_w: u32, src_h: u32, crop: Option<CropRect>) -> (r: Option<PixelCrop>)
    requires
        crop matches Some(c) ==> crop_ok(c),
    ensures
        r == match crop {
            Some(c) => spec_export_crop(c, src_w as nat, src_h as nat),
            None => None,
        },
{
    match crop {
        Some(c) => {
            let w = scale_round(c.width_micro, src_w);
            let h = scale_round(c.height_micro, src_h);
            if w > 0 && h > 0 {
                Some(
                    PixelCrop {
                        width: w,
                        height: h,
                        x: scale_round(c.x_micro, src_w),
                        y: scale_round(c.y_micro, src_h),
                    },
                )
            } else {
                None
            }
        },
        None => None,
    }
}

} // verus!
