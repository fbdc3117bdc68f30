use vstd::prelude::*;
use crate::error::ConvertError;
use crate::extract::{read_window, seek_to, spec_read_window, spec_retime_steps, spec_seek_to, spec_trim_step, trim_step};
use crate::filters::{FilterStep, render_chain, spec_render_chain};
use crate::frames::PixelCrop;
use crate::settings::{SegmentMode, TrimSegment, segment_ok};
use crate::text::{
    join_with, millis_text, padded_min, push_arg, replace_char, spec_join,
    spec_millis_text, spec_padded_min, spec_replace_char, spec_trim_suffix, trim_suffix, views,
};

verus! {

/// A video file the export wrote.
#[derive(Debug, Clone)]
pub struct Mp4Result {
    pub file_path: String,
    pub file_size: u64,
}

/// `n` rounded up to an even number.
pub open spec fn round_up_even(n: nat) -> nat {
    n + n % 2
}

/// A segment export's chain: trim, retime (if the speed is not normal),
/// crop (if any), then a scale to the requested size rounded up to even
/// sides, or to the source size rounded down to even sides.
pub open spec fn spec_export_filters(
    seg: TrimSegment,
    speed_micro: u64,
    crop: Option<PixelCrop>,
    width: Option<u32>,
    height: Option<u32>,
) -> Seq<FilterStep> {
    seq![spec_trim_step(seg)] + spec_retime_steps(speed_micro) + match crop {
        Some(c) => seq![FilterStep::Crop { crop: c }],
        None => Seq::empty(),
    } + match (width, height) {
        (Some(w), Some(h)) => seq![
            FilterStep::Scale {
                width: round_up_even(w as nat) as u64,
                height: round_up_even(h as nat) as u64,
            },
        ],
        _ => seq![FilterStep::ScaleEven],
    }
}

/// The tool's arguments for exporting one segment into `output`: fast seek,
/// bounded read, the chain, no audio, a fixed quality-oriented H.264
/// configuration, overwrite.
pub open spec fn spec_segment_args(
    input: Seq<char>,
    output: Seq<char>,
    seg: TrimSegment,
    filters: Seq<FilterStep>,
) -> Seq<Seq<char>> {
    seq![
        "-ss"@,
        spec_millis_text(spec_seek_to(seg.start_us as nat)),
        "-t"@,
        spec_millis_text(spec_read_window(seg)),
        "-i"@,
        input,
        "-vf"@,
        spec_render_chain(filters),
        "-an"@,
        "-c:v"@,
        "libx264"@,
        "-preset"@,
        "fast"@,
        "-crf"@,
        "18"@,
        "-y"@,
        output,
    ]
}

/// The tool's arguments for joining the clips listed in `list` into
/// `output` without re-encoding.
pub open spec fn spec_concat_args(list: Seq<char>, output: Seq<char>) -> Seq<Seq<char>> {
    seq!["-f"@, "concat"@, "-safe"@, "0"@, "-i"@, list, "-c"@, "copy"@, "-y"@, output]
}

/// One manifest line: `file '<path>'`, backslashes turned into slashes.
pub open spec fn spec_manifest_line(path: Seq<char>) -> Seq<char> {
    "file '"@ + spec_replace_char(path, '\\', '/') + "'"@
}

/// The concat manifest: one line per clip, in order.
pub open spec fn spec_manifest(paths: Seq<Seq<char>>) -> Seq<char> {
    spec_join(paths.map_values(|p: Seq<char>| spec_manifest_line(p)), '\n')
}

/// Where segment `i` (of `total`) goes when written straight to the
/// destination: the destination itself for a single segment, else the
/// destination without its `.mp4` ending plus `_NN.mp4`, numbered from 1.
pub open spec fn spec_direct_path(output: Seq<char>, i: nat, total: nat) -> Seq<char> {
    if total == 1 {
        output
    } else {
        spec_trim_suffix(output, ".mp4"@) + "_"@ + spec_padded_min(i + 1, 2) + ".mp4"@
    }
}

/// Where segment `i` goes inside the temporary directory.
pub open spec fn spec_temp_path(dir: Seq<char>, i: nat) -> Seq<char> {
    dir + "/seg_"@ + spec_padded_min(i, 3) + ".mp4"@
}

/// The manifest's place inside the temporary directory.
pub open spec fn spec_manifest_path(dir: Seq<char>) -> Seq<char> {
    dir + "/concat_list.txt"@
}

/// A segment export's filter chain.
pub fn export_filters(
    seg: &TrimSegment,
    speed_micro: u64,
    crop: Option<PixelCrop>,
    width: Option<u32>,
    height: Option<u32>,
) -> (r: Vec<FilterStep>)
    requires
        segment_ok(*seg),
    ensures
        r@ == spec_export_filters(*seg, speed_micro, crop, width, height),
{
    let mut v: Vec<FilterStep> = Vec::new();
    v.push(trim_step(seg));
    if speed_micro > 1_010_000 || speed_micro < 990_000 {
        v.push(FilterStep::Retime { speed_micro });
    }
    match crop {
        Some(c) => {
            v.push(FilterStep::Crop { crop: c });
        },
        None => {},
    }
    match (width, height) {
        (Some(w), Some(h)) => {
            v.push(
                FilterStep::Scale {
                    width: w as u64 + (w % 2) as u64,
                    height: h as u64 + (h % 2) as u64,
                },
            );
        },
        _ => {
            v.push(FilterStep::ScaleEven);
        },
    }
    assert(v@ =~= spec_export_filters(*seg, speed_micro, crop, width, height));
    v
}

/// The argument list for exporting one segment.
pub fn segment_args(input: &str, output: &str, seg: &TrimSegment, filters: &Vec<FilterStep>) -> (r: Vec<String>)
    requires
        segment_ok(*seg),
    ensures
        views(r@) == spec_segment_args(input@, output@, *seg, filters@),
{
    let mut v: Vec<String> = Vec::new();
    push_arg(&mut v, "-ss");
    push_arg(&mut v, millis_text(seek_to(seg.start_us)).as_str());
    push_arg(&mut v, "-t");
    push_arg(&mut v, millis_text(read_window(seg)).as_str());
    push_arg(&mut v, "-i");
    push_arg(&mut v, input);
    push_arg(&mut v, "-vf");
    push_arg(&mut v, render_chain(filters).as_str());
    push_arg(&mut v, "-an");
    push_arg(&mut v, "-c:v");
    push_arg(&mut v, "libx264");
    push_arg(&mut v, "-preset");
    push_arg(&mut v, "fast");
    push_arg(&mut v, "-crf");
    push_arg(&mut v, "18");
    push_arg(&mut v, "-y");
    push_arg(&mut v, output);
    assert(views(v@) =~= spec_segment_args(input@, output@, *seg, filters@));
    v
}

/// The argument list for the lossless join.
pub fn concat_args(list: &str, output: &str) -> (r: Vec<String>)
    ensures
        views(r@) == spec_concat_args(list@, output@),
{
    let mut v: Vec<String> = Vec::new();
    push_arg(&mut v, "-f");
    push_arg(&mut v, "concat");
    push_arg(&mut v, "-safe");
    push_arg(&mut v, "0");
    push_arg(&mut v, "-i");
    push_arg(&mut v, list);
    push_arg(&mut v, "-c");
    push_arg(&mut v, "copy");
    push_arg(&mut v, "-y");
    push_arg(&mut v, output);
    assert(views(v@) =~= spec_concat_args(list@, output@));
    v
}

/// The concat manifest for the clips at `paths`.
pub fn concat_manifest(paths: &Vec<String>) -> (r: String)
    ensures
        r@ == spec_manifest(views(paths@)),
{
    let mut lines: Vec<String> = Vec::new();
    let mut i: usize = 0;
    while i < paths.len()
        invariant
            i <= paths@.len(),
            lines@.len() == i,
            forall|j: int| 0 <= j < i ==> #[trigger] lines@[j]@ == spec_manifest_line(paths@[j]@),
        decreases paths@.len() - i,
    {
        let mut line = String::from_str("file '");
        line.append(replace_char(paths[i].as_str(), '\\', '/').as_str());
        line.append("'");
        lines.push(line);
        i = i + 1;
    }
    proof {
        reveal_strlit("\n");
    }
    let r = join_with(&lines, "\n");
    assert(views(lines@) =~= views(paths@).map_values(|p: Seq<char>| spec_manifest_line(p)));
    r
}

/// The destination of segment `i` of `total` in direct mode.
pub fn direct_path(output: &str, i: usize, total: usize) -> (r: String)
    requires
        i < total,
    ensures
        r@ == spec_direct_path(output@, i as nat, total as nat),
{
    if total == 1 {
        String::from_str(output)
    } else {
        let mut s = trim_suffix(output, ".mp4");
        s.append("_");
        s.append(padded_min(i as u64 + 1, 2).as_str());
        s.append(".mp4");
        s
    }
}

/// The temporary clip path of segment `i`.
pub fn temp_path(dir: &str, i: usize) -> (r: String)
    ensures
        r@ == spec_temp_path(dir@, i as nat),
{
    let mut s = String::from_str(dir);
    s.append("/seg_");
    s.append(padded_min(i as u64, 3).as_str());
    s.append(".mp4");
    s
}

/// The manifest path inside the temporary directory.
pub fn manifest_path(dir: &str) -> (r: String)
    ensures
        r@ == spec_manifest_path(dir@),
{
    String::from_str(dir).concat("/concat_list.txt")
}

} // verus!

verus! {

/// What the driver of a video export does next.
pub enum ExportAction {
    /// Create this directory for the temporary clips.
    CreateDir { path: String },
    /// Run the external tool with these arguments.
    RunTool { args: Vec<String> },
    /// Write `contents` to the file at `path`.
    WriteFile { path: String, contents: String },
    /// Remove this directory with everything in it.
    RemoveDir { path: String },
    /// The export is over, with this outcome.
    Finish { outcome: Result<Vec<Mp4Result>, ConvertError> },
}

/// Where an export stands.
#[derive(Debug, Clone, Copy, PartialEq, Eq, Structural)]
pub enum ExportPhase {
    Start,
    CreatingDir,
    Exporting,
    WritingManifest,
    Concatenating,
    Cleaning,
    Done,
}

/// The sequencing of a video export. Each segment is exported straight to
/// its destination (split mode, or a single segment), or into a private
/// temporary directory whose clips are then joined into the destination
/// (merge mode with two or more segments). Once that directory exists, the
/// export never finishes without first removing it, whatever failed.
pub struct Mp4Export {
    input: String,
    output: String,
    segments: Vec<TrimSegment>,
    speed_micro: u64,
    crop: Option<PixelCrop>,
    width: Option<u32>,
    height: Option<u32>,
    merge: bool,
    temp_dir: String,
    phase: ExportPhase,
    done: usize,
    results: Vec<Mp4Result>,
    temp_files: Vec<String>,
    pending: Option<ConvertError>,
    temp_created: bool,
    temp_removed: bool,
}

impl Mp4Export {
    pub closed spec fn phase(&self) -> ExportPhase {
        self.phase
    }

    /// Clips go through a temporary directory and are joined.
    pub closed spec fn merging(&self) -> bool {
        self.merge
    }

    /// Segments exported so far.
    pub closed spec fn exported(&self) -> nat {
        self.done as nat
    }

    pub closed spec fn segment_count(&self) -> nat {
        self.segments@.len()
    }

    pub closed spec fn output(&self) -> Seq<char> {
        self.output@
    }

    pub closed spec fn temp_dir(&self) -> Seq<char> {
        self.temp_dir@
    }

    /// Files written to their destination so far, with their sizes.
    pub closed spec fn files(&self) -> Seq<Mp4Result> {
        self.results@
    }

    /// The temporary directory was created.
    pub closed spec fn temp_created(&self) -> bool {
        self.temp_created
    }

    /// The temporary directory was handed out for removal.
    pub closed spec fn temp_removed(&self) -> bool {
        self.temp_removed
    }

    /// No temporary file is left behind.
    pub open spec fn temp_clean(&self) -> bool {
        self.temp_created() ==> self.temp_removed()
    }

    pub closed spec fn wf(&self) -> bool {
        &&& self.wf_core()
        &&& self.phase == ExportPhase::Exporting ==> self.done < self.segments@.len()
    }

    closed spec fn wf_core(&self) -> bool {
        &&& self.segments@.len() > 0
        &&& forall|i: int| 0 <= i < self.segments@.len() ==> #[trigger] segment_ok(self.segments@[i])
        &&& self.done <= self.segments@.len()
        &&& self.merge ==> self.segments@.len() > 1
        &&& !self.merge ==> !self.temp_created
        &&& self.temp_removed ==> self.temp_created
        &&& (self.phase == ExportPhase::Start || self.phase == ExportPhase::CreatingDir) ==> !self.temp_created
            && self.done == 0
        &&& (self.phase == ExportPhase::Exporting || self.phase == ExportPhase::WritingManifest
            || self.phase == ExportPhase::Concatenating) ==> (self.merge ==> self.temp_created) && !self.temp_removed
        &&& (self.phase == ExportPhase::CreatingDir || self.phase == ExportPhase::WritingManifest
            || self.phase == ExportPhase::Concatenating) ==> self.merge
        &&& self.phase == ExportPhase::Cleaning ==> self.merge && self.temp_created && self.temp_removed
        &&& self.phase == ExportPhase::Done ==> (self.temp_created ==> self.temp_removed)
        &&& (!self.merge && self.phase != ExportPhase::Done) ==> self.results@.len() == self.done
        &&& (!self.merge && self.phase != ExportPhase::Done) ==> forall|i: int|
            0 <= i < self.done ==> #[trigger] self.results@[i].file_path@ == spec_direct_path(
                self.output@,
                i as nat,
                self.segments@.len(),
            )
        &&& self.merge ==> self.temp_files@.len() == self.done
        &&& self.merge ==> forall|i: int|
            0 <= i < self.done ==> #[trigger] self.temp_files@[i]@ == spec_temp_path(self.temp_dir@, i as nat)
        &&& (self.phase == ExportPhase::Cleaning && self.pending is None) ==> self.results@.len() == 1
            && self.results@[0].file_path@ == self.output@
    }

    /// Sets up an export of `segments` of `input` into `output`. The
    /// temporary directory, used in merge mode with two or more segments, is
    /// `temp_dir`. Fails with `NoSegments` when there is nothing to export.
    pub fn new(
        input: String,
        output: String,
        segments: Vec<TrimSegment>,
        mode: SegmentMode,
        speed_micro: u64,
        crop: Option<PixelCrop>,
        width: Option<u32>,
        height: Option<u32>,
        temp_dir: String,
    ) -> (r: Result<Mp4Export, ConvertError>)
        requires
            forall|i: int| 0 <= i < segments@.len() ==> #[trigger] segment_ok(segments@[i]),
        ensures
            segments@.len() == 0 <==> r is Err,
            r matches Err(e) ==> e is NoSegments,
            r matches Ok(x) ==> {
                &&& x.wf()
                &&& x.phase() == ExportPhase::Start
                &&& x.exported() == 0
                &&& x.files() == Seq::<Mp4Result>::empty()
                &&& x.merging() == (mode == SegmentMode::Merge && segments@.len() > 1)
                &&& x.segment_count() == segments@.len()
                &&& x.output() == output@
                &&& x.temp_dir() == temp_dir@
                &&& !x.temp_created()
            },
    {
        if segments.len() == 0 {
            return Err(ConvertError::NoSegments);
        }
        let merge = mode == SegmentMode::Merge && segments.len() > 1;
        Ok(
            Mp4Export {
                input,
                output,
                segments,
                speed_micro,
                crop,
                width,
                height,
                merge,
                temp_dir,
                phase: ExportPhase::Start,
                done: 0,
                results: Vec::new(),
                temp_files: Vec::new(),
                pending: None,
                temp_created: false,
                temp_removed: false,
            },
        )
    }

    /// Where segment `i` is written.
    pub closed spec fn spec_segment_path(&self, i: nat) -> Seq<char> {
        if self.merge {
            spec_temp_path(self.temp_dir@, i)
        } else {
            spec_direct_path(self.output@, i, self.segments@.len())
        }
    }

    /// The tool's arguments for exporting segment `i` to its place.
    pub closed spec fn segment_args_for(&self, i: nat) -> Seq<Seq<char>> {
        spec_segment_args(
            self.input@,
            self.spec_segment_path(i),
            self.segments@[i as int],
            spec_export_filters(self.segments@[i as int], self.speed_micro, self.crop, self.width, self.height),
        )
    }

    fn segment_path(&self, i: usize) -> (r: String)
        requires
            self.wf(),
            i < self.segments@.len(),
        ensures
            r@ == self.spec_segment_path(i as nat),
    {
        if self.merge {
            temp_path(self.temp_dir.as_str(), i)
        } else {
            direct_path(self.output.as_str(), i, self.segments.len())
        }
    }

    /// Runs the export of segment `self.done`.
    fn export_next(&self) -> (r: ExportAction)
        requires
            self.wf(),
            self.done < self.segments@.len(),
        ensures
            r matches ExportAction::RunTool { args } && views(args@) == self.segment_args_for(self.done as nat),
    {
        let seg = &self.segments[self.done];
        let path = self.segment_path(self.done);
        let filters = export_filters(seg, self.speed_micro, self.crop, self.width, self.height);
        ExportAction::RunTool { args: segment_args(self.input.as_str(), path.as_str(), seg, &filters) }
    }

    /// Hands out the temporary directory for removal; `error` (if any) is
    /// reported once that is done.
    fn clean_up(&mut self, error: Option<ConvertError>) -> (r: ExportAction)
        requires
            old(self).wf_core(),
            old(self).merge,
            old(self).temp_created,
            !old(self).temp_removed,
            error is None ==> old(self).results@.len() == 1 && old(self).results@[0].file_path@ == old(self).output@,
        ensures
            final(self).wf(),
            final(self).phase() == ExportPhase::Cleaning,
            final(self).temp_removed(),
            final(self).merging() == old(self).merging(),
            final(self).output() == old(self).output(),
            final(self).temp_dir() == old(self).temp_dir(),
            final(self).segment_count() == old(self).segment_count(),
            final(self).exported() == old(self).exported(),
            final(self).files() == old(self).files(),
            final(self).pending_error() == error,
            r matches ExportAction::RemoveDir { path } && path@ == old(self).temp_dir(),
    {
        self.pending = error;
        self.phase = ExportPhase::Cleaning;
        self.temp_removed = true;
        ExportAction::RemoveDir { path: self.temp_dir.clone() }
    }

    /// The first step: create the temporary directory (merge mode), or
    /// export the first segment to its destination.
    pub fn start(&mut self) -> (r: ExportAction)
        requires
            old(self).wf(),
            old(self).phase() == ExportPhase::Start,
        ensures
            final(self).wf(),
            final(self).merging() == old(self).merging(),
            final(self).output() == old(self).output(),
            final(self).temp_dir() == old(self).temp_dir(),
            final(self).segment_count() == old(self).segment_count(),
            final(self).exported() == old(self).exported(),
            final(self).files() == old(self).files(),
            old(self).merging() ==> (final(self).phase() == ExportPhase::CreatingDir && (r matches ExportAction::CreateDir {
                path,
            } && path@ == old(self).temp_dir())),
            !old(self).merging() ==> final(self).phase() == ExportPhase::Exporting && (r matches ExportAction::RunTool {
                args,
            } && views(args@) == old(self).segment_args_for(0)),
    {
        if self.merge {
            self.phase = ExportPhase::CreatingDir;
            ExportAction::CreateDir { path: self.temp_dir.clone() }
        } else {
            self.phase = ExportPhase::Exporting;
            self.export_next()
        }
    }

    /// Takes the result of the last action (`Ok` with the size of the file
    /// it wrote, where it wrote one) and whether cancellation was requested,
    /// and gives the next action.
    ///
    /// A failed step, or a cancellation observed between steps, ends the
    /// export with that error (`Io` for the directory and the manifest,
    /// `ProcessFailure` for the tool, `Cancelled`); in merge mode only after
    /// the temporary directory was handed out for removal. A merge ends with
    /// exactly one file, the destination; a direct export with one file per
    /// segment.
    pub fn on_step(&mut self, result: Result<u64, String>, cancelled: bool) -> (r: ExportAction)
        requires
            old(self).wf(),
            old(self).phase() != ExportPhase::Start,
            old(self).phase() != ExportPhase::Done,
        ensures
            final(self).wf(),
            final(self).merging() == old(self).merging(),
            final(self).output() == old(self).output(),
            final(self).temp_dir() == old(self).temp_dir(),
            final(self).segment_count() == old(self).segment_count(),
            r is Finish <==> final(self).phase() == ExportPhase::Done,
            r is RemoveDir ==> final(self).phase() == ExportPhase::Cleaning,
            (old(self).phase() == ExportPhase::Exporting && r is RunTool) ==> final(self).phase()
                == ExportPhase::Exporting && final(self).exported() < final(self).segment_count(),
            (old(self).phase() != ExportPhase::Exporting || result is Err) ==> final(self).exported() == old(
                self,
            ).exported(),
            (old(self).phase() == ExportPhase::Exporting && !old(self).merging() && r is RunTool) ==> match result {
                Ok(size) => {
                    &&& final(self).files().len() == old(self).files().len() + 1
                    &&& final(self).files().drop_last() == old(self).files()
                    &&& final(self).files().last().file_size == size
                },
                Err(_) => false,
            },
            (old(self).phase() == ExportPhase::Exporting && !old(self).merging()) ==> match (result, r) {
                (Ok(size), ExportAction::Finish { outcome: Ok(files) }) => {
                    &&& files@.len() == old(self).files().len() + 1
                    &&& files@.drop_last() == old(self).files()
                    &&& files@.last().file_size == size
                },
                _ => true,
            },
            (old(self).phase() == ExportPhase::Concatenating) ==> match result {
                Ok(size) => {
                    &&& final(self).files().len() == 1
                    &&& final(self).files()[0].file_path@ == old(self).output()
                    &&& final(self).files()[0].file_size == size
                },
                Err(_) => true,
            },
            (old(self).phase() == ExportPhase::Cleaning && old(self).pending_error() is None) ==> (
            r matches ExportAction::Finish { outcome: Ok(files) } && files@ == old(self).files()),
            r is Finish ==> final(self).temp_clean(),
            r matches ExportAction::RemoveDir { path } ==> path@ == old(self).temp_dir()
                && final(self).temp_removed() && !old(self).temp_removed(),
            r matches ExportAction::Finish { outcome: Ok(files) } ==> {
                if old(self).merging() {
                    &&& files@.len() == 1
                    &&& files@[0].file_path@ == old(self).output()
                } else {
                    &&& files@.len() == old(self).segment_count()
                    &&& forall|i: int|
                        0 <= i < files@.len() ==> #[trigger] files@[i].file_path@ == spec_direct_path(
                            old(self).output(),
                            i as nat,
                            old(self).segment_count(),
                        )
                }
            },
            old(self).phase() == ExportPhase::CreatingDir ==> match result {
                Err(m) => r matches ExportAction::Finish { outcome: Err(ConvertError::Io(e)) } && e == m,
                Ok(_) => if cancelled {
                    r is RemoveDir && final(self).pending_error() == Some(ConvertError::Cancelled)
                } else {
                    final(self).phase() == ExportPhase::Exporting && (r matches ExportAction::RunTool { args }
                        && views(args@) == old(self).segment_args_for(0))
                },
            },
            old(self).phase() == ExportPhase::Exporting ==> match result {
                Err(m) => if old(self).merging() {
                    r is RemoveDir && final(self).pending_error() == Some(ConvertError::ProcessFailure(m))
                } else {
                    r matches ExportAction::Finish { outcome: Err(ConvertError::ProcessFailure(e)) } && e == m
                },
                Ok(_) => {
                    &&& final(self).exported() == old(self).exported() + 1
                    &&& cancelled ==> if old(self).merging() {
                        r is RemoveDir && final(self).pending_error() == Some(ConvertError::Cancelled)
                    } else {
                        r matches ExportAction::Finish { outcome: Err(ConvertError::Cancelled) }
                    }
                    &&& !cancelled && final(self).exported() < old(self).segment_count() ==> (
                    r matches ExportAction::RunTool { args } && views(args@) == old(self).segment_args_for(
                        final(self).exported(),
                    ))
                    &&& !cancelled && final(self).exported() == old(self).segment_count() ==> if old(
                        self,
                    ).merging() {
                        r is WriteFile && final(self).phase() == ExportPhase::WritingManifest
                    } else {
                        r matches ExportAction::Finish { outcome: Ok(_) }
                    }
                },
            },
            old(self).phase() == ExportPhase::WritingManifest ==> match result {
                Err(m) => r is RemoveDir && final(self).pending_error() == Some(ConvertError::Io(m)),
                Ok(_) => if cancelled {
                    r is RemoveDir && final(self).pending_error() == Some(ConvertError::Cancelled)
                } else {
                    r matches ExportAction::RunTool { args } && views(args@) == spec_concat_args(
                        spec_manifest_path(old(self).temp_dir()),
                        old(self).output(),
                    ) && final(self).phase() == ExportPhase::Concatenating
                },
            },
            old(self).phase() == ExportPhase::Concatenating ==> r is RemoveDir && match result {
                Err(m) => final(self).pending_error() == Some(ConvertError::ProcessFailure(m)),
                Ok(_) => final(self).pending_error() is None,
            },
            old(self).phase() == ExportPhase::Cleaning ==> match old(self).pending_error() {
                Some(e) => r matches ExportAction::Finish { outcome: Err(x) } && x == e,
                None => r matches ExportAction::Finish { outcome: Ok(_) },
            },
    {
        match self.phase {
            ExportPhase::CreatingDir => match result {
                Err(m) => {
                    self.phase = ExportPhase::Done;
                    ExportAction::Finish { outcome: Err(ConvertError::Io(m)) }
                },
                Ok(_) => {
                    self.temp_created = true;
                    self.phase = ExportPhase::Exporting;
                    if cancelled {
                        self.clean_up(Some(ConvertError::Cancelled))
                    } else {
                        self.export_next()
                    }
                },
            },
            ExportPhase::Exporting => match result {
                Err(m) => {
                    if self.merge {
                        self.clean_up(Some(ConvertError::ProcessFailure(m)))
                    } else {
                        self.phase = ExportPhase::Done;
                        ExportAction::Finish { outcome: Err(ConvertError::ProcessFailure(m)) }
                    }
                },
                Ok(size) => {
                    let n = self.segments.len();
                    assert(self.done < n);
                    let path = self.segment_path(self.done);
                    if self.merge {
                        self.temp_files.push(path);
                    } else {
                        self.results.push(Mp4Result { file_path: path, file_size: size });
                    }
                    self.done = self.done + 1;
                    if cancelled {
                        if self.merge {
                            self.clean_up(Some(ConvertError::Cancelled))
                        } else {
                            self.phase = ExportPhase::Done;
                            ExportAction::Finish { outcome: Err(ConvertError::Cancelled) }
                        }
                    } else if self.done < self.segments.len() {
                        self.export_next()
                    } else if self.merge {
                        self.phase = ExportPhase::WritingManifest;
                        ExportAction::WriteFile {
                            path: manifest_path(self.temp_dir.as_str()),
                            contents: concat_manifest(&self.temp_files),
                        }
                    } else {
                        self.phase = ExportPhase::Done;
                        let mut files: Vec<Mp4Result> = Vec::new();
                        std::mem::swap(&mut files, &mut self.results);
                        ExportAction::Finish { outcome: Ok(files) }
                    }
                },
            },
            ExportPhase::WritingManifest => match result {
                Err(m) => self.clean_up(Some(ConvertError::Io(m))),
                Ok(_) => {
                    if cancelled {
                        self.clean_up(Some(ConvertError::Cancelled))
                    } else {
                        self.phase = ExportPhase::Concatenating;
                        let list = manifest_path(self.temp_dir.as_str());
                        ExportAction::RunTool { args: concat_args(list.as_str(), self.output.as_str()) }
                    }
                },
            },
            ExportPhase::Concatenating => match result {
                Err(m) => self.clean_up(Some(ConvertError::ProcessFailure(m))),
                Ok(size) => {
                    self.results = Vec::new();
                    self.results.push(Mp4Result { file_path: self.output.clone(), file_size: size });
                    self.clean_up(None)
                },
            },
            _ => {
                self.phase = ExportPhase::Done;
                let mut pending: Option<ConvertError> = None;
                std::mem::swap(&mut pending, &mut self.pending);
                match pending {
                    Some(e) => ExportAction::Finish { outcome: Err(e) },
                    None => {
                        let mut files: Vec<Mp4Result> = Vec::new();
                        std::mem::swap(&mut files, &mut self.results);
                        ExportAction::Finish { outcome: Ok(files) }
                    },
                }
            },
        }
    }

    /// The error to report once the temporary directory is removed.
    pub closed spec fn pending_error(&self) -> Option<ConvertError> {
        self.pending
    }

    /// Progress in steps: segments exported so far out of the number of
    /// segments, plus one for the join in merge mode (counted done once
    /// the export is being cleaned up after a successful join).
    pub fn progress(&self) -> (r: (usize, usize))
        requires
            self.wf(),
            self.segment_count() < usize::MAX,
        ensures
            r.1 == self.segment_count() + if self.merging() { 1nat } else { 0nat },
            r.0 == self.exported() + if self.merging() && self.phase() == ExportPhase::Cleaning
                && self.pending_error() is None { 1nat } else { 0nat },
    {
        let n = self.segments.len();
        let total = if self.merge {
            n + 1
        } else {
            n
        };
        let finished_join = self.merge && self.phase == ExportPhase::Cleaning && self.pending.is_none();
        let completed = if finished_join {
            self.done + 1
        } else {
            self.done
        };
        (completed, total)
    }
}

/// Whole-range export's chain: trim to `[start, end)` of the source (no
/// seek), retime (if the speed is not normal), crop (if any), and a scale
/// only when both sides are requested.
pub open spec fn spec_whole_filters(
    start_us: u64,
    end_us: u64,
    speed_micro: u64,
    crop: Option<PixelCrop>,
    width: Option<u32>,
    height: Option<u32>,
) -> Seq<FilterStep> {
    seq![FilterStep::Trim { start_us, end_us }] + spec_retime_steps(speed_micro) + match crop {
        Some(c) => seq![FilterStep::Crop { crop: c }],
        None => Seq::empty(),
    } + match (width, height) {
        (Some(w), Some(h)) => seq![FilterStep::Scale { width: w as u64, height: h as u64 }],
        _ => Seq::empty(),
    }
}

/// The tool's arguments for exporting `[start, end)` of `input` in one run,
/// decoding from the beginning.
pub open spec fn spec_whole_args(input: Seq<char>, output: Seq<char>, filters: Seq<FilterStep>) -> Seq<Seq<char>> {
    seq![
        "-i"@,
        input,
        "-vf"@,
        spec_render_chain(filters),
        "-an"@,
        "-c:v"@,
        "libx264"@,
        "-preset"@,
        "fast"@,
        "-crf"@,
        "18"@,
        "-y"@,
        output,
    ]
}

/// Arguments for exporting one range of `input` with speed, crop and size
/// applied, the range starting at `start` (default 0) and ending at `end`
/// (default the whole duration).
pub fn whole_range_args(
    input: &str,
    output: &str,
    start_us: Option<u64>,
    end_us: Option<u64>,
    duration_us: u64,
    speed_micro: u64,
    crop: Option<PixelCrop>,
    width: Option<u32>,
    height: Option<u32>,
) -> (r: Vec<String>)
    ensures
        views(r@) == spec_whole_args(
            input@,
            output@,
            spec_whole_filters(
                match start_us {
                    Some(s) => s,
                    None => 0,
                },
                match end_us {
                    Some(e) => e,
                    None => duration_us,
                },
                speed_micro,
                crop,
                width,
                height,
            ),
        ),
{
    let s: u64 = match start_us {
        Some(s) => s,
        None => 0,
    };
    let e: u64 = match end_us {
        Some(e) => e,
        None => duration_us,
    };
    let mut filters: Vec<FilterStep> = Vec::new();
    filters.push(FilterStep::Trim { start_us: s, end_us: e });
    if speed_micro > 1_010_000 || speed_micro < 990_000 {
        filters.push(FilterStep::Retime { speed_micro });
    }
    match crop {
        Some(c) => {
            filters.push(FilterStep::Crop { crop: c });
        },
        None => {},
    }
    match (width, height) {
        (Some(w), Some(h)) => {
            filters.push(FilterStep::Scale { width: w as u64, height: h as u64 });
        },
        _ => {},
    }
    assert(filters@ =~= spec_whole_filters(s, e, speed_micro, crop, width, height));
    let mut v: Vec<String> = Vec::new();
    push_arg(&mut v, "-i");
    push_arg(&mut v, input);
    push_arg(&mut v, "-vf");
    push_arg(&mut v, render_chain(&filters).as_str());
    push_arg(&mut v, "-an");
    push_arg(&mut v, "-c:v");
    push_arg(&mut v, "libx264");
    push_arg(&mut v, "-preset");
    push_arg(&mut v, "fast");
    push_arg(&mut v, "-crf");
    push_arg(&mut v, "18");
    push_arg(&mut v, "-y");
    push_arg(&mut v, output);
    assert(views(v@) =~= spec_whole_args(input@, output@, filters@));
    v
}

/// The name of file `i` of `count` saved under `base` with extension `ext`:
/// `base.ext` when there is one file, else `base_NN.ext` numbered from 1.
pub open spec fn spec_numbered_name(base: Seq<char>, ext: Seq<char>, i: nat, count: nat) -> Seq<char> {
    if count == 1 {
        base + "."@ + ext
    } else {
        base + "_"@ + spec_padded_min(i + 1, 2) + "."@ + ext
    }
}

/// The file name of output `i` of `count`.
pub fn numbered_name(base: &str, ext: &str, i: usize, count: usize) -> (r: String)
    requires
        i < count,
    ensures
        r@ == spec_numbered_name(base@, ext@, i as nat, count as nat),
{
    let mut s = String::from_str(base);
    if count != 1 {
        s.append("_");
        s.append(padded_min(i as u64 + 1, 2).as_str());
    }
    s.append(".");
    s.append(ext);
    s
}

/// Relies on `uuid::Uuid::new_v4` and its hyphenated text form: a random
/// identifier, 36 characters long.
#[verifier::external_body]
fn random_id() -> (r: String)
    ensures
        r@.len() == 36,
{
    uuid::Uuid::new_v4().to_string()
}

/// A fresh private directory for one export's temporary clips, inside
/// `root`: `root/videobricks-mp4-<random id>`.
pub fn temp_job_dir(root: &str) -> (r: String)
    ensures
        r@.len() == root@.len() + "/videobricks-mp4-"@.len() + 36,
        r@.take((root@.len() + "/videobricks-mp4-"@.len()) as int) == root@ + "/videobricks-mp4-"@,
{
    let id = random_id();
    let mut s = String::from_str(root);
    s.append("/videobricks-mp4-");
    let ghost prefix = s@;
    s.append(id.as_str());
    assert(s@.take(prefix.len() as int) =~= prefix);
    s
}

/// A fresh file name for handing an animation to the clipboard:
/// `videobricks-<random id>.gif`.
pub fn clipboard_file_name() -> (r: String)
    ensures
        r@.len() == "videobricks-"@.len() + 36 + ".gif"@.len(),
        r@.take("videobricks-"@.len() as int) == "videobricks-"@,
{
    let id = random_id();
    let mut s = String::from_str("videobricks-");
    let ghost prefix = s@;
    s.append(id.as_str());
    s.append(".gif");
    assert(s@.take(prefix.len() as int) =~= prefix);
    s
}

} // verus!
