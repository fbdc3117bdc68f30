use vstd::prelude::*;
use crate::frames::PixelCrop;
use crate::text::{decimal_text, micro_text, spec_decimal, spec_join, spec_micro_text, join_with};

verus! {

/// One stage of the external tool's video filter chain.
#[derive(Debug, Clone, Copy, PartialEq, Eq, Structural)]
pub enum FilterStep {
    /// Keeps `[start, end)` of the input and restarts time at zero.
    Trim { start_us: u64, end_us: u64 },
    /// Plays `speed` (in millionths) times faster.
    Retime { speed_micro: u64 },
    /// Resamples to a frame rate given in millionths of a frame per second.
    Fps { rate_micro: u64 },
    /// Cuts out a pixel rectangle.
    Crop { crop: PixelCrop },
    /// Scales to an exact size with the Lanczos filter.
    ScaleLanczos { width: u32, height: u32 },
    /// Scales to an exact size.
    Scale { width: u64, height: u64 },
    /// Scales each side down to the nearest even number.
    ScaleEven,
    /// Converts to packed RGBA pixels.
    Rgba,
}

/// The text of one filter stage as the tool reads it.
pub open spec fn spec_render_filter(f: FilterStep) -> Seq<char> {
    match f {
        FilterStep::Trim { start_us, end_us } => "trim=start="@ + spec_micro_text(start_us as nat) + ":end="@
            + spec_micro_text(end_us as nat) + ",setpts=PTS-STARTPTS"@,
        FilterStep::Retime { speed_micro } => "setpts=PTS/"@ + spec_micro_text(speed_micro as nat),
        FilterStep::Fps { rate_micro } => "fps="@ + spec_micro_text(rate_micro as nat),
        FilterStep::Crop { crop } => "crop="@ + spec_decimal(crop.width as nat) + ":"@ + spec_decimal(
            crop.height as nat,
        ) + ":"@ + spec_decimal(crop.x as nat) + ":"@ + spec_decimal(crop.y as nat),
        FilterStep::ScaleLanczos { width, height } => "scale="@ + spec_decimal(width as nat) + ":"@
            + spec_decimal(height as nat) + ":flags=lanczos"@,
        FilterStep::Scale { width, height } => "scale="@ + spec_decimal(width as nat) + ":"@ + spec_decimal(
            height as nat,
        ),
        FilterStep::ScaleEven => "scale=trunc(iw/2)*2:trunc(ih/2)*2"@,
        FilterStep::Rgba => "format=rgba"@,
    }
}

/// The whole chain: stages in order, separated by commas.
pub open spec fn spec_render_chain(steps: Seq<FilterStep>) -> Seq<char> {
    spec_join(steps.map_values(|f: FilterStep| spec_render_filter(f)), ',')
}

/// Renders one filter stage.
pub fn render_filter(f: &FilterStep) -> (r: String)
    ensures
        r@ == spec_render_filter(*f),
{
    match f {
        FilterStep::Trim { start_us, end_us } => {
            let mut s = String::from_str("trim=start=");
            s.append(micro_text(*start_us).as_str());
            s.append(":end=");
            s.append(micro_text(*end_us).as_str());
            s.append(",setpts=PTS-STARTPTS");
            s
        },
        FilterStep::Retime { speed_micro } => {
            let s = String::from_str("setpts=PTS/");
            s.concat(micro_text(*speed_micro).as_str())
        },
        FilterStep::Fps { rate_micro } => {
            let s = String::from_str("fps=");
            s.concat(micro_text(*rate_micro).as_str())
        },
        FilterStep::Crop { crop } => {
            let mut s = String::from_str("crop=");
            s.append(decimal_text(crop.width as u64).as_str());
            s.append(":");
            s.append(decimal_text(crop.height as u64).as_str());
            s.append(":");
            s.append(decimal_text(crop.x as u64).as_str());
            s.append(":");
            s.append(decimal_text(crop.y as u64).as_str());
            s
        },
        FilterStep::ScaleLanczos { width, height } => {
            let mut s = String::from_str("scale=");
            s.append(decimal_text(*width as u64).as_str());
            s.append(":");
            s.append(decimal_text(*height as u64).as_str());
            s.append(":flags=lanczos");
            s
        },
        FilterStep::Scale { width, height } => {
            let mut s = String::from_str("scale=");
            s.append(decimal_text(*width).as_str());
            s.append(":");
            s.append(decimal_text(*height).as_str());
            s
        },
        FilterStep::ScaleEven => String::from_str("scale=trunc(iw/2)*2:trunc(ih/2)*2"),
        FilterStep::Rgba => String::from_str("format=rgba"),
    }
}

/// Renders a filter chain.
pub fn render_chain(steps: &Vec<FilterStep>) -> (r: String)
    ensures
        r@ == spec_render_chain(steps@),
{
    let mut parts: Vec<String> = Vec::new();
    let mut i: usize = 0;
    while i < steps.len()
        invariant
            i <= steps@.len(),
            parts@.len() == i,
            forall|j: int| 0 <= j < i ==> #[trigger] parts@[j]@ == spec_render_filter(steps@[j]),
        decreases steps@.len() - i,
    {
        parts.push(render_filter(&steps[i]));
        i = i + 1;
    }
    proof {
        reveal_strlit(",");
    }
    let r = join_with(&parts, ",");
    proof {
        assert(parts@.map_values(|p: String| p@) =~= steps@.map_values(|f: FilterStep| spec_render_filter(f)));
    }
    r
}

} // verus!
