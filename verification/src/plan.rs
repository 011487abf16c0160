//! From the files of a run to its steps.

use vstd::prelude::*;
use crate::color::Color;
use crate::filetypes::FileType;
use crate::input_file::{InputFile, InputFileView};
use crate::magick::{
    job_views, needs_intermediate, planned_steps, ConvertJob, ConvertJobView,
    GhostScriptConvertJob, GhostScriptJobView, MagickConvertJob, MagickJobView, ResizeArgument,
    ResizeFilter,
};
use crate::naming::{assign_names, assigned_names, sorted_order, stable_order};
use crate::temp::{join_path, joined, Workspace, WorkspaceView};
use crate::text::{concat, decimal, decimal_string};

verus! {

/// What is converted in one chain of steps: a source, which may be one frame
/// of a file, and the name of the result in the workspace.
#[derive(Debug, Clone, PartialEq, Eq)]
pub struct JobInput {
    pub input: String,
    pub kind: FileType,
    pub output_name: String,
    pub frame: usize,
}

/// What a [`JobInput`] holds, as plain values.
pub struct JobInputView {
    pub input: Seq<char>,
    pub kind: FileType,
    pub output_name: Seq<char>,
    pub frame: nat,
}

impl View for JobInput {
    type V = JobInputView;

    open spec fn view(&self) -> JobInputView {
        JobInputView {
            input: self.input@,
            kind: self.kind,
            output_name: self.output_name@,
            frame: self.frame as nat,
        }
    }
}

/// The views of a list of chain inputs, in order.
pub open spec fn input_views(inputs: Seq<JobInput>) -> Seq<JobInputView> {
    inputs.map_values(|e: JobInput| e@)
}

/// Frame `f` of the file at `path`, as the image converter reads it:
/// the path with the frame in square brackets behind it.
pub open spec fn frame_of(path: Seq<char>, f: nat) -> Seq<char> {
    path + seq!['['] + decimal(f) + seq![']']
}

/// The name of a result that is the only one of its source.
pub open spec fn plain_output_name(stem: Seq<char>, target: FileType) -> Seq<char> {
    stem + seq!['.'] + target.spec_extension()
}

/// The name of the result for frame or page `f` of a source that gives
/// several.
pub open spec fn framed_output_name(stem: Seq<char>, f: nat, target: FileType) -> Seq<char> {
    stem + seq!['['] + decimal(f) + seq![']', '.'] + target.spec_extension()
}

/// Whether a source gives one result for each of its frames or pages: a
/// document always; a file that can hold an animation where it holds more
/// than one frame and the target cannot hold them together.
pub open spec fn splits_into_frames(kind: FileType, frames: nat, target: FileType) -> bool {
    kind == FileType::Pdf || (frames != 1 && kind.spec_supports_animation()
        && !target.spec_supports_animation())
}

/// Whether a source is handed to the converter as a whole, with all its
/// frames: it holds several and both formats can hold an animation.
pub open spec fn keeps_all_frames(kind: FileType, frames: nat, target: FileType) -> bool {
    kind != FileType::Pdf && frames != 1 && kind.spec_supports_animation()
        && target.spec_supports_animation()
}

/// The chain input for frame or page `f` of a source that gives several.
/// A document is read as a whole and the page is told to the renderer; of
/// any other file the frame is named in the path.
pub open spec fn frame_input(
    file: InputFileView,
    stem: Seq<char>,
    target: FileType,
    f: nat,
) -> JobInputView {
    JobInputView {
        input: if file.kind == FileType::Pdf {
            file.path
        } else {
            frame_of(file.path, f)
        },
        kind: file.kind,
        output_name: framed_output_name(stem, f, target),
        frame: f,
    }
}

/// The chain inputs that one file gives, in order.
pub open spec fn inputs_of(file: InputFileView, stem: Seq<char>, target: FileType) -> Seq<
    JobInputView,
> {
    if splits_into_frames(file.kind, file.frames, target) {
        Seq::new(file.frames, |f: int| frame_input(file, stem, target, f as nat))
    } else {
        seq![
            JobInputView {
                input: if keeps_all_frames(file.kind, file.frames, target) {
                    file.path
                } else {
                    frame_of(file.path, 0)
                },
                kind: file.kind,
                output_name: plain_output_name(stem, target),
                frame: 0,
            },
        ]
    }
}

fn frame_path(path: &str, f: usize) -> (r: String)
    ensures
        r@ == frame_of(path@, f as nat),
{
    proof {
        reveal_strlit("[");
        reveal_strlit("]");
    }
    let mut r: String = concat(path, "[");
    r.append(decimal_string(f).as_str());
    r.append("]");
    assert(r@ =~= frame_of(path@, f as nat));
    r
}

fn plain_name(stem: &str, target: FileType) -> (r: String)
    ensures
        r@ == plain_output_name(stem@, target),
{
    proof {
        reveal_strlit(".");
    }
    let mut r: String = concat(stem, ".");
    r.append(target.as_extension());
    assert(r@ =~= plain_output_name(stem@, target));
    r
}

fn framed_name(stem: &str, f: usize, target: FileType) -> (r: String)
    ensures
        r@ == framed_output_name(stem@, f as nat, target),
{
    proof {
        reveal_strlit("[");
        reveal_strlit("].");
    }
    let mut r: String = concat(stem, "[");
    r.append(decimal_string(f).as_str());
    r.append("].");
    r.append(target.as_extension());
    assert(r@ =~= framed_output_name(stem@, f as nat, target));
    r
}

/// Lists the chain inputs that one file gives: one for each page of a
/// document; one for each frame of an animation whose target holds single
/// images only; else one, for the whole animation where the target can hold
/// it, and for the first frame in every other case.
pub fn expand_file(file: &InputFile, stem: &str, target: FileType) -> (r: Vec<JobInput>)
    ensures
        input_views(r@) == inputs_of(file@, stem@, target),
{
    let kind: FileType = file.kind();
    let frames: usize = file.frames();
    let path: String = file.path();
    let mut r: Vec<JobInput> = Vec::new();
    let document: bool = matches!(kind, FileType::Pdf);
    if document || (frames != 1 && kind.supports_animation() && !target.supports_animation()) {
        let mut f: usize = 0;
        while f < frames
            invariant
                f <= frames,
                frames == file@.frames,
                kind == file@.kind,
                path@ == file@.path,
                document == (kind == FileType::Pdf),
                r.len() == f,
                forall|i: int|
                    0 <= i < f ==> (#[trigger] r@[i])@ == frame_input(file@, stem@, target, i as nat),
            decreases frames - f,
        {
            let input: String = if document {
                path.clone()
            } else {
                frame_path(path.as_str(), f)
            };
            r.push(JobInput { input, kind, output_name: framed_name(stem, f, target), frame: f });
            f = f + 1;
        }
        assert(input_views(r@) =~= inputs_of(file@, stem@, target));
    } else {
        let input: String = if frames != 1 && kind.supports_animation()
            && target.supports_animation() {
            path
        } else {
            frame_path(path.as_str(), 0)
        };
        r.push(JobInput { input, kind, output_name: plain_name(stem, target), frame: 0 });
        assert(input_views(r@) =~= inputs_of(file@, stem@, target));
    }
    r
}

/// The options of a run, fixed when it starts.
#[derive(Debug, Clone, Copy, PartialEq, Eq)]
pub struct ConversionOptions {
    /// The size of the results.
    pub resize: ResizeArgument,
    /// The filter to resample with, if one is named.
    pub filter: Option<ResizeFilter>,
    /// The colour that shows where an image is transparent.
    pub background: Color,
    /// The quality of the results, from 0 to 100.
    pub quality: usize,
    /// The resolution at which the pages of a document are rendered.
    pub dpi: usize,
    /// The alpha flag of the steps that keep every frame. A step that
    /// flattens one frame goes by the two formats instead.
    pub remove_alpha: bool,
}

impl ConversionOptions {
    /// The options of a run, or nothing where the quality is above 100.
    pub fn new(
        resize: ResizeArgument,
        filter: Option<ResizeFilter>,
        background: Color,
        quality: usize,
        dpi: usize,
        remove_alpha: bool,
    ) -> (r: Option<Self>)
        ensures
            r == if quality <= 100 {
                Some(ConversionOptions { resize, filter, background, quality, dpi, remove_alpha })
            } else {
                None
            },
    {
        if quality <= 100 {
            Some(ConversionOptions { resize, filter, background, quality, dpi, remove_alpha })
        } else {
            None
        }
    }

    /// What every image step of the run takes from the options.
    pub open spec fn magick_defaults(self) -> MagickJobView {
        MagickJobView {
            input_file: Seq::empty(),
            output_file: Seq::empty(),
            background: self.background,
            quality: self.quality as nat,
            coalesce: false,
            first_frame: false,
            filter: self.filter,
            resize_arg: self.resize,
            remove_alpha: self.remove_alpha,
        }
    }

    /// What every document step of the run takes from the options.
    pub open spec fn ghostscript_defaults(self) -> GhostScriptJobView {
        GhostScriptJobView {
            input_file: Seq::empty(),
            output_file: Seq::empty(),
            page: 0,
            dpi: self.dpi as nat,
        }
    }

    /// An image step without files, which holds the options.
    pub fn magick_arguments(&self) -> (job: MagickConvertJob)
        ensures
            job@ == self.magick_defaults(),
    {
        MagickConvertJob {
            input_file: String::new(),
            output_file: String::new(),
            background: self.background,
            quality: self.quality,
            coalesce: false,
            first_frame: false,
            filter: self.filter,
            resize_arg: self.resize,
            remove_alpha: self.remove_alpha,
        }
    }

    /// A document step without files, which holds the options.
    pub fn ghostscript_arguments(&self) -> (job: GhostScriptConvertJob)
        ensures
            job@ == self.ghostscript_defaults(),
    {
        GhostScriptConvertJob {
            input_file: String::new(),
            output_file: String::new(),
            page: 0,
            dpi: self.dpi,
        }
    }
}

/// The number of the first `n` chain inputs that take an intermediate file.
pub open spec fn intermediates(inputs: Seq<JobInputView>, n: nat, target: FileType) -> nat
    decreases n,
{
    if n == 0 {
        0
    } else {
        intermediates(inputs, (n - 1) as nat, target) + if needs_intermediate(
            inputs[n - 1].kind,
            target,
        ) {
            1nat
        } else {
            0nat
        }
    }
}

/// The path that the result of a chain has in the workspace.
pub open spec fn output_path(dir: WorkspaceView, input: JobInputView) -> Seq<char> {
    joined(dir.path, input.output_name)
}

/// The steps of chain `i`. The workspace is taken as the run found it; the
/// intermediate files of the chains are numbered in the order of the chains.
pub open spec fn chain_of(
    inputs: Seq<JobInputView>,
    i: nat,
    target: FileType,
    dir: WorkspaceView,
    options: ConversionOptions,
) -> Seq<ConvertJobView> {
    planned_steps(
        inputs[i as int].input,
        inputs[i as int].frame,
        inputs[i as int].kind,
        output_path(dir, inputs[i as int]),
        target,
        WorkspaceView { issued: dir.issued + intermediates(inputs, i, target), ..dir },
        options.magick_defaults(),
        options.ghostscript_defaults(),
    )
}

/// The chains of a run, one for each chain input and in their order.
pub open spec fn chains_of(
    inputs: Seq<JobInputView>,
    target: FileType,
    dir: WorkspaceView,
    options: ConversionOptions,
) -> Seq<Seq<ConvertJobView>> {
    Seq::new(inputs.len(), |i: int| chain_of(inputs, i as nat, target, dir, options))
}

/// The number of steps in the first `n` chains.
pub open spec fn step_count(chains: Seq<Seq<ConvertJobView>>, n: nat) -> nat
    decreases n,
{
    if n == 0 {
        0
    } else {
        step_count(chains, (n - 1) as nat) + chains[n - 1].len()
    }
}

/// The views of a list of chains.
pub open spec fn chain_views(chains: Seq<Vec<ConvertJob>>) -> Seq<Seq<ConvertJobView>> {
    chains.map_values(|c: Vec<ConvertJob>| job_views(c@))
}

/// What is to be run: the chains, the path of each chain's result, and
/// the number of steps in all.
#[derive(Debug, Clone)]
pub struct Plan {
    pub chains: Vec<Vec<ConvertJob>>,
    pub output_files: Vec<String>,
    pub total: usize,
}

/// What a [`Plan`] holds, as plain values.
pub struct PlanView {
    pub chains: Seq<Seq<ConvertJobView>>,
    pub output_files: Seq<Seq<char>>,
    pub total: nat,
}

impl View for Plan {
    type V = PlanView;

    open spec fn view(&self) -> PlanView {
        PlanView {
            chains: chain_views(self.chains@),
            output_files: self.output_files.deep_view(),
            total: self.total as nat,
        }
    }
}

/// The plan for a list of chain inputs.
pub open spec fn plan_of(
    inputs: Seq<JobInputView>,
    target: FileType,
    dir: WorkspaceView,
    options: ConversionOptions,
) -> PlanView {
    PlanView {
        chains: chains_of(inputs, target, dir, options),
        output_files: Seq::new(inputs.len(), |i: int| output_path(dir, inputs[i])),
        total: step_count(chains_of(inputs, target, dir, options), inputs.len()),
    }
}

/// A chain has two steps where it takes an intermediate file, else one.
pub proof fn lemma_chain_length(
    inputs: Seq<JobInputView>,
    i: nat,
    target: FileType,
    dir: WorkspaceView,
    options: ConversionOptions,
)
    requires
        i < inputs.len(),
    ensures
        chain_of(inputs, i, target, dir, options).len() == if needs_intermediate(
            inputs[i as int].kind,
            target,
        ) {
            2nat
        } else {
            1nat
        },
{
}

/// The steps of the first `n` chains: one for each chain and one more for
/// each intermediate file.
pub proof fn lemma_step_count(
    inputs: Seq<JobInputView>,
    n: nat,
    target: FileType,
    dir: WorkspaceView,
    options: ConversionOptions,
)
    requires
        n <= inputs.len(),
    ensures
        step_count(chains_of(inputs, target, dir, options), n) == n + intermediates(
            inputs,
            n,
            target,
        ),
        intermediates(inputs, n, target) <= n,
    decreases n,
{
    if n > 0 {
        lemma_step_count(inputs, (n - 1) as nat, target, dir, options);
        lemma_chain_length(inputs, (n - 1) as nat, target, dir, options);
    }
}

/// Why no plan could be made. Either is a defect of the caller, not
/// something a user can mend.
#[derive(Debug, Clone, Copy, PartialEq, Eq, Structural)]
pub enum PlanError {
    /// A file reports that it has no frame at all. The planner is not to
    /// be asked for such a file; this is its answer where it is asked all
    /// the same.
    ZeroFrames,
    /// A file's path has no file name to take the stem from.
    NoFileName,
    /// The steps, or the files of the workspace, are more than can be counted.
    TooManySteps,
}

impl PlanError {
    /// The defect in words, for a log.
    pub open spec fn spec_describe(self) -> Seq<char> {
        match self {
            PlanError::ZeroFrames => "an image cannot have zero frames"@,
            PlanError::NoFileName => "a file has no name"@,
            PlanError::TooManySteps => "the steps are too many to count"@,
        }
    }

    /// The defect in words, for a log.
    pub fn describe(&self) -> (s: String)
        ensures
            s@ == self.spec_describe(),
    {
        match self {
            PlanError::ZeroFrames => String::from_str("an image cannot have zero frames"),
            PlanError::NoFileName => String::from_str("a file has no name"),
            PlanError::TooManySteps => String::from_str("the steps are too many to count"),
        }
    }
}

/// Plans the chains for a list of chain inputs: for each the path of its
/// result in the workspace and the steps that lead there. Nothing is
/// planned where the workspace could run out of numbers or the steps could
/// not be counted.
pub fn plan_chains(
    inputs: &Vec<JobInput>,
    target: FileType,
    options: &ConversionOptions,
    dir: &mut Workspace,
) -> (r: Option<Plan>)
    ensures
        final(dir)@.path == old(dir)@.path,
        match r {
            Some(plan) => {
                &&& old(dir).issued + 2 * inputs.len() <= usize::MAX
                &&& plan@ == plan_of(input_views(inputs@), target, old(dir)@, *options)
                &&& final(dir)@.issued == old(dir)@.issued + intermediates(
                    input_views(inputs@),
                    inputs.len() as nat,
                    target,
                )
            },
            None => {
                &&& old(dir).issued + 2 * inputs.len() > usize::MAX
                &&& final(dir)@ == old(dir)@
            },
        },
{
    let n: usize = inputs.len();
    if n > (usize::MAX - dir.issued) / 2 {
        return None;
    }
    let ghost start = dir@;
    let ghost iv = input_views(inputs@);
    let ghost want = plan_of(iv, target, start, *options);
    let magick: MagickConvertJob = options.magick_arguments();
    let ghost_script: GhostScriptConvertJob = options.ghostscript_arguments();
    let mut chains: Vec<Vec<ConvertJob>> = Vec::new();
    let mut output_files: Vec<String> = Vec::new();
    let mut total: usize = 0;
    let mut i: usize = 0;
    while i < n
        invariant
            n == inputs.len(),
            iv == input_views(inputs@),
            want == plan_of(iv, target, start, *options),
            start.issued + 2 * n <= usize::MAX,
            magick@ == options.magick_defaults(),
            ghost_script@ == options.ghostscript_defaults(),
            i <= n,
            dir@.path == start.path,
            dir@.issued == start.issued + intermediates(iv, i as nat, target),
            chains.len() == i,
            output_files.len() == i,
            total == step_count(want.chains, i as nat),
            forall|j: int| 0 <= j < i ==> job_views((#[trigger] chains@[j])@) == want.chains[j],
            forall|j: int| 0 <= j < i ==> (#[trigger] output_files@[j])@ == want.output_files[j],
        decreases n - i,
    {
        proof {
            lemma_step_count(iv, i as nat, target, start, *options);
            lemma_step_count(iv, (i + 1) as nat, target, start, *options);
            assert(iv[i as int] == inputs@[i as int]@);
        }
        let input: &JobInput = &inputs[i];
        let output: String = join_path(dir.path.as_str(), input.output_name.as_str());
        let chain: Vec<ConvertJob> = crate::magick::generate_job(
            input.input.as_str(),
            input.frame,
            &input.kind,
            output.as_str(),
            &target,
            dir,
            (&magick, &ghost_script),
        );
        assert(job_views(chain@) == want.chains[i as int]);
        total = total + chain.len();
        chains.push(chain);
        output_files.push(output);
        i = i + 1;
    }
    let plan = Plan { chains, output_files, total };
    proof {
        assert(plan@.chains =~= want.chains);
        assert(plan@.output_files =~= want.output_files);
    }
    Some(plan)
}

/// The stem of the file name in a path: the name of the last component
/// without its extension. It is what `std::path::Path::file_stem` gives;
/// a path that ends in `..` or is the root has none.
pub uninterp spec fn file_stem_of(path: Seq<char>) -> Option<Seq<char>>;

/// Calls `std::path::Path::file_stem` on `path`. The contract names the
/// result and claims nothing else of it: what comes back is the stem of
/// `path`, the same for the same path.
#[verifier::external_body]
fn path_file_stem(path: &str) -> (r: Option<String>)
    ensures
        match r {
            Some(stem) => file_stem_of(path@) == Some(stem@),
            None => file_stem_of(path@) is None,
        },
{
    match std::path::Path::new(path).file_stem() {
        Some(stem) => match stem.to_str() {
            Some(text) => Some(String::from(text)),
            None => None,
        },
        None => None,
    }
}

/// Takes the stem of each file's name; nothing where a path has no file
/// name.
pub fn file_stems(files: &Vec<InputFile>) -> (r: Option<Vec<String>>)
    ensures
        match r {
            Some(stems) => {
                &&& stems.len() == files.len()
                &&& forall|i: int|
                    0 <= i < files.len() ==> file_stem_of((#[trigger] files@[i])@.path) == Some(
                        stems@[i]@,
                    )
            },
            None => exists|i: int|
                0 <= i < files.len() && file_stem_of((#[trigger] files@[i])@.path) is None,
        },
{
    let mut stems: Vec<String> = Vec::new();
    let mut i: usize = 0;
    while i < files.len()
        invariant
            i <= files.len(),
            stems.len() == i,
            forall|j: int|
                0 <= j < i ==> file_stem_of((#[trigger] files@[j])@.path) == Some(stems@[j]@),
        decreases files.len() - i,
    {
        match path_file_stem(files[i].path().as_str()) {
            Some(stem) => {
                stems.push(stem);
            },
            None => {
                return None;
            },
        }
        i = i + 1;
    }
    Some(stems)
}

/// The files in the order in which they are named: position `p` holds the
/// file whose place in the list is `order[p]`.
pub open spec fn ordered_files(files: Seq<InputFileView>, order: Seq<usize>) -> Seq<InputFileView> {
    Seq::new(order.len(), |p: int| files[order[p] as int])
}

/// The stems in the order in which the files are named.
pub open spec fn ordered_stems(stems: Seq<Seq<char>>, order: Seq<usize>) -> Seq<Seq<char>> {
    Seq::new(order.len(), |p: int| stems[order[p] as int])
}

/// The chain inputs of the first `n` files, file after file.
pub open spec fn gathered_inputs(
    files: Seq<InputFileView>,
    names: Seq<Seq<char>>,
    target: FileType,
    n: nat,
) -> Seq<JobInputView>
    decreases n,
{
    if n == 0 {
        Seq::empty()
    } else {
        gathered_inputs(files, names, target, (n - 1) as nat) + inputs_of(
            files[n - 1],
            names[n - 1],
            target,
        )
    }
}

/// The chain inputs of a run. The files are put in the order of their
/// stems, files with the same stem in the order in which they came; each
/// gets the first name of its stem that no file before it has; then each
/// gives its chain inputs.
pub open spec fn run_inputs(
    files: Seq<InputFileView>,
    stems: Seq<Seq<char>>,
    target: FileType,
) -> Seq<JobInputView> {
    let order = stable_order(stems, stems.len());
    gathered_inputs(
        ordered_files(files, order),
        assigned_names(ordered_stems(stems, order), stems.len()),
        target,
        stems.len(),
    )
}

/// The views of a list of files, in order.
pub open spec fn file_views(files: Seq<InputFile>) -> Seq<InputFileView> {
    files.map_values(|f: InputFile| f@)
}

/// Whether one of the files reports no frame at all.
pub open spec fn some_without_frames(files: Seq<InputFileView>) -> bool {
    exists|i: int| 0 <= i < files.len() && (#[trigger] files[i]).frames == 0
}

/// Lists the chain inputs of a run whose files have the stems `stems`, one
/// for each file. Where the stems are not as many as the files, nothing is
/// listed.
pub fn gather_inputs(files: &Vec<InputFile>, stems: &Vec<String>, target: FileType) -> (r: Vec<
    JobInput,
>)
    ensures
        files.len() == stems.len() ==> input_views(r@) == run_inputs(
            file_views(files@),
            stems.deep_view(),
            target,
        ),
        files.len() != stems.len() ==> r.len() == 0,
{
    if files.len() != stems.len() {
        return Vec::new();
    }
    let ghost fv = file_views(files@);
    let ghost sv = stems.deep_view();
    let n: usize = stems.len();
    let order: Vec<usize> = sorted_order(stems);
    let mut sorted: Vec<String> = Vec::new();
    let mut p: usize = 0;
    while p < n
        invariant
            n == stems.len(),
            order.len() == n,
            sv == stems.deep_view(),
            forall|i: int| 0 <= i < order.len() ==> (#[trigger] order@[i]) < n,
            p <= n,
            sorted.len() == p,
            forall|i: int| 0 <= i < p ==> (#[trigger] sorted@[i])@ == sv[order@[i] as int],
        decreases n - p,
    {
        let stem: String = stems[order[p]].clone();
        assert(stem@ == sv[order@[p as int] as int]);
        sorted.push(stem);
        p = p + 1;
    }
    assert(sorted.deep_view() =~= ordered_stems(sv, order@));
    let named: (Vec<String>, Vec<usize>) = assign_names(&sorted);
    let names: Vec<String> = named.0;
    let ghost nv = names.deep_view();
    let ghost of = ordered_files(fv, order@);
    let mut inputs: Vec<JobInput> = Vec::new();
    let mut q: usize = 0;
    assert(input_views(inputs@) =~= gathered_inputs(of, nv, target, 0));
    while q < n
        invariant
            n == stems.len(),
            n == files.len(),
            order.len() == n,
            names.len() == n,
            nv == names.deep_view(),
            fv == file_views(files@),
            of == ordered_files(fv, order@),
            forall|i: int| 0 <= i < order.len() ==> (#[trigger] order@[i]) < n,
            q <= n,
            input_views(inputs@) == gathered_inputs(of, nv, target, q as nat),
        decreases n - q,
    {
        let mut more: Vec<JobInput> = expand_file(&files[order[q]], names[q].as_str(), target);
        proof {
            assert(of[q as int] == files@[order@[q as int] as int]@);
            assert(nv[q as int] == names@[q as int]@);
            assert(input_views(inputs@ + more@) =~= input_views(inputs@) + input_views(more@));
        }
        inputs.append(&mut more);
        q = q + 1;
    }
    inputs
}

/// Tells whether one of the files reports no frame at all. Such a file is
/// a defect of whoever lists the files, and no plan is asked for it.
pub fn any_without_frames(files: &Vec<InputFile>) -> (r: bool)
    ensures
        r == some_without_frames(file_views(files@)),
{
    let ghost fv = file_views(files@);
    let mut i: usize = 0;
    while i < files.len()
        invariant
            i <= files.len(),
            fv == file_views(files@),
            forall|j: int| 0 <= j < i ==> (#[trigger] fv[j]).frames != 0,
        decreases files.len() - i,
    {
        assert(fv[i as int] == files@[i as int]@);
        if files[i].frames() == 0 {
            assert(0 <= i < fv.len() && fv[i as int].frames == 0);
            return true;
        }
        i = i + 1;
    }
    false
}

/// Plans a run: the chains that convert `files`, whose names have the
/// stems `stems`, into the format `target`. Files and stems go together by
/// their places, so a list of stems of another length names no files.
///
/// Every file has at least one frame: a file without frames does not come
/// as far as the planner, and `any_without_frames` tells beforehand whether
/// there is one. Compiled code that hands one in all the same is answered
/// with `PlanError::ZeroFrames` and gets no plan.
pub fn plan_named(
    files: &Vec<InputFile>,
    stems: &Vec<String>,
    target: FileType,
    options: &ConversionOptions,
    dir: &mut Workspace,
) -> (r: Result<Plan, PlanError>)
    requires
        !some_without_frames(file_views(files@)),
    ensures
        final(dir)@.path == old(dir)@.path,
        r is Err ==> final(dir)@ == old(dir)@,
        match r {
            Ok(plan) => {
                &&& files.len() == stems.len()
                &&& old(dir).issued + 2 * run_inputs(
                    file_views(files@),
                    stems.deep_view(),
                    target,
                ).len() <= usize::MAX
                &&& plan@ == plan_of(
                    run_inputs(file_views(files@), stems.deep_view(), target),
                    target,
                    old(dir)@,
                    *options,
                )
                &&& final(dir)@.issued == old(dir)@.issued + intermediates(
                    run_inputs(file_views(files@), stems.deep_view(), target),
                    run_inputs(file_views(files@), stems.deep_view(), target).len(),
                    target,
                )
            },
            Err(PlanError::NoFileName) => files.len() != stems.len(),
            Err(PlanError::ZeroFrames) => false,
            Err(PlanError::TooManySteps) => {
                &&& files.len() == stems.len()
                &&& old(dir).issued + 2 * run_inputs(
                    file_views(files@),
                    stems.deep_view(),
                    target,
                ).len() > usize::MAX
            },
        },
{
    if files.len() != stems.len() {
        return Err(PlanError::NoFileName);
    }
    if any_without_frames(files) {
        return Err(PlanError::ZeroFrames);
    }
    let inputs: Vec<JobInput> = gather_inputs(files, stems, target);
    match plan_chains(&inputs, target, options, dir) {
        Some(plan) => Ok(plan),
        None => Err(PlanError::TooManySteps),
    }
}

/// Whether every file has a path with a file name in it.
pub open spec fn all_named(files: Seq<InputFileView>) -> bool {
    forall|i: int| 0 <= i < files.len() ==> file_stem_of((#[trigger] files[i]).path) is Some
}

/// The stems of the files' names, file by file.
pub open spec fn stems_of(files: Seq<InputFileView>) -> Seq<Seq<char>> {
    Seq::new(files.len(), |i: int| file_stem_of(files[i].path)->0)
}

/// Plans a run: the chains that convert `files` into the format `target`,
/// with the results named after the files.
///
/// Every file has at least one frame: a file without frames does not come
/// as far as the planner, and `any_without_frames` tells beforehand whether
/// there is one. Compiled code that hands one in all the same is answered
/// with `PlanError::ZeroFrames` and gets no plan.
///
/// No plan is made where a path has no file name or where the steps are
/// too many to count. The workspace then stays as it was.
pub fn plan_run(
    files: &Vec<InputFile>,
    target: FileType,
    options: &ConversionOptions,
    dir: &mut Workspace,
) -> (r: Result<Plan, PlanError>)
    requires
        !some_without_frames(file_views(files@)),
    ensures
        final(dir)@.path == old(dir)@.path,
        r is Err ==> final(dir)@ == old(dir)@,
        match r {
            Ok(plan) => {
                &&& all_named(file_views(files@))
                &&& old(dir).issued + 2 * run_inputs(
                    file_views(files@),
                    stems_of(file_views(files@)),
                    target,
                ).len() <= usize::MAX
                &&& plan@ == plan_of(
                    run_inputs(file_views(files@), stems_of(file_views(files@)), target),
                    target,
                    old(dir)@,
                    *options,
                )
                &&& final(dir)@.issued == old(dir)@.issued + intermediates(
                    run_inputs(file_views(files@), stems_of(file_views(files@)), target),
                    run_inputs(file_views(files@), stems_of(file_views(files@)), target).len(),
                    target,
                )
            },
            Err(PlanError::NoFileName) => !all_named(file_views(files@)),
            Err(PlanError::ZeroFrames) => false,
            Err(PlanError::TooManySteps) => {
                &&& all_named(file_views(files@))
                &&& old(dir).issued + 2 * run_inputs(
                    file_views(files@),
                    stems_of(file_views(files@)),
                    target,
                ).len() > usize::MAX
            },
        },
{
    let ghost fv = file_views(files@);
    match file_stems(files) {
        Some(stems) => {
            proof {
                assert forall|i: int| 0 <= i < fv.len() implies file_stem_of(
                    (#[trigger] fv[i]).path,
                ) is Some by {
                    assert(fv[i] == files@[i]@);
                }
                assert(stems.deep_view() =~= stems_of(fv)) by {
                    assert forall|i: int| 0 <= i < stems.len() implies stems.deep_view()[i]
                        == stems_of(fv)[i] by {
                        assert(fv[i] == files@[i]@);
                        assert(stems.deep_view()[i] == stems@[i]@);
                    }
                }
            }
            plan_named(files, &stems, target, options, dir)
        },
        None => {
            proof {
                let i = choose|i: int|
                    0 <= i < files.len() && file_stem_of((#[trigger] files@[i])@.path) is None;
                assert(fv[i] == files@[i]@);
            }
            Err(PlanError::NoFileName)
        },
    }
}

/// The chain inputs of a run of one file are those of the file under the
/// name of its stem.
pub proof fn lemma_single_file_inputs(file: InputFileView, stem: Seq<char>, target: FileType)
    ensures
        run_inputs(seq![file], seq![stem], target) == inputs_of(file, stem, target),
{
    let stems = seq![stem];
    let files = seq![file];
    assert(stable_order(stems, 0) =~= Seq::<usize>::empty());
    assert(stable_order(stems, 1) =~= seq![0usize]) by {
        reveal_with_fuel(stable_order, 2);
        reveal_with_fuel(crate::naming::inserted, 2);
    }
    let order = stable_order(stems, 1);
    assert(ordered_files(files, order) =~= files);
    assert(ordered_stems(stems, order) =~= stems);
    let none = Seq::<Seq<char>>::empty();
    assert(assigned_names(stems, 0) =~= none);
    assert(crate::naming::first_free(none, stem, 0) == 0);
    assert(assigned_names(stems, 1) =~= seq![stem]) by {
        reveal_with_fuel(assigned_names, 2);
    }
    assert(gathered_inputs(files, seq![stem], target, 0) =~= Seq::<JobInputView>::empty());
    assert(gathered_inputs(files, seq![stem], target, 1) =~= inputs_of(file, stem, target)) by {
        reveal_with_fuel(gathered_inputs, 2);
    }
}

/// A file of one frame whose target holds single images is converted in
/// exactly one step, unless it is a document that has to be rendered
/// first.
pub proof fn lemma_single_frame_one_step(
    file: InputFileView,
    stem: Seq<char>,
    target: FileType,
    dir: WorkspaceView,
    options: ConversionOptions,
)
    requires
        file.frames == 1,
        !target.spec_supports_animation(),
        !needs_intermediate(file.kind, target),
    ensures
        plan_of(run_inputs(seq![file], seq![stem], target), target, dir, options).chains.len() == 1,
        plan_of(run_inputs(seq![file], seq![stem], target), target, dir, options).chains[0].len()
            == 1,
        plan_of(run_inputs(seq![file], seq![stem], target), target, dir, options).total == 1,
{
    lemma_single_file_inputs(file, stem, target);
    let inputs = inputs_of(file, stem, target);
    assert(inputs.len() == 1);
    assert(inputs[0].kind == file.kind);
    lemma_chain_length(inputs, 0, target, dir, options);
    lemma_step_count(inputs, 1, target, dir, options);
    reveal_with_fuel(intermediates, 2);
}

proof fn lemma_all_intermediate(inputs: Seq<JobInputView>, n: nat, target: FileType)
    requires
        n <= inputs.len(),
        forall|i: int| 0 <= i < inputs.len() ==> needs_intermediate((#[trigger] inputs[i]).kind, target),
    ensures
        intermediates(inputs, n, target) == n,
    decreases n,
{
    if n > 0 {
        lemma_all_intermediate(inputs, (n - 1) as nat, target);
    }
}

/// A document of `n` pages whose target is not the format into which
/// pages are rendered is converted in `n` chains of two steps each: `2n`
/// steps in all.
pub proof fn lemma_document_two_steps_a_page(
    file: InputFileView,
    stem: Seq<char>,
    target: FileType,
    dir: WorkspaceView,
    options: ConversionOptions,
)
    requires
        file.kind == FileType::Pdf,
        target != FileType::Png,
    ensures
        plan_of(run_inputs(seq![file], seq![stem], target), target, dir, options).chains.len()
            == file.frames,
        forall|i: int|
            0 <= i < file.frames ==> (#[trigger] plan_of(
                run_inputs(seq![file], seq![stem], target),
                target,
                dir,
                options,
            ).chains[i]).len() == 2,
        plan_of(run_inputs(seq![file], seq![stem], target), target, dir, options).total == 2
            * file.frames,
{
    lemma_single_file_inputs(file, stem, target);
    let inputs = inputs_of(file, stem, target);
    assert(inputs.len() == file.frames);
    assert forall|i: int| 0 <= i < inputs.len() implies needs_intermediate(
        (#[trigger] inputs[i]).kind,
        target,
    ) by {}
    lemma_all_intermediate(inputs, inputs.len(), target);
    lemma_step_count(inputs, inputs.len(), target, dir, options);
    assert forall|i: int| 0 <= i < file.frames implies (#[trigger] plan_of(
        inputs,
        target,
        dir,
        options,
    ).chains[i]).len() == 2 by {
        lemma_chain_length(inputs, i as nat, target, dir, options);
    }
}

/// A step with its files put into the directory `dir`: the file that it
/// writes, and the file that it reads where `reads_inside` says that this
/// one lies in the directory too.
pub open spec fn placed(job: ConvertJobView, reads_inside: bool, dir: Seq<char>) -> ConvertJobView {
    match job {
        ConvertJobView::GhostScript(g) => ConvertJobView::GhostScript(
            GhostScriptJobView {
                input_file: if reads_inside {
                    joined(dir, g.input_file)
                } else {
                    g.input_file
                },
                output_file: joined(dir, g.output_file),
                ..g
            },
        ),
        ConvertJobView::Magick(m) => ConvertJobView::Magick(
            MagickJobView {
                input_file: if reads_inside {
                    joined(dir, m.input_file)
                } else {
                    m.input_file
                },
                output_file: joined(dir, m.output_file),
                ..m
            },
        ),
    }
}

/// The workspace without a place: its files are known by their names alone.
pub open spec fn unplaced(dir: WorkspaceView) -> WorkspaceView {
    WorkspaceView { path: Seq::empty(), ..dir }
}

/// A plan depends on where the workspace lies in the paths of the files in
/// it and in nothing else. Each step is the step of the plan for a workspace
/// without a place, with its result put into the workspace, and its source
/// too where that is the result of the step before. So two plans for the
/// same files and options in workspaces that have given out equally many
/// numbers are the same but for the directory in those paths.
pub proof fn lemma_plan_moves_with_workspace(
    inputs: Seq<JobInputView>,
    target: FileType,
    dir: WorkspaceView,
    options: ConversionOptions,
    i: int,
    s: int,
)
    requires
        0 <= i < inputs.len(),
        0 <= s < chain_of(inputs, i as nat, target, dir, options).len(),
    ensures
        chain_of(inputs, i as nat, target, unplaced(dir), options).len() == chain_of(
            inputs,
            i as nat,
            target,
            dir,
            options,
        ).len(),
        chain_of(inputs, i as nat, target, dir, options)[s] == placed(
            chain_of(inputs, i as nat, target, unplaced(dir), options)[s],
            s > 0,
            dir.path,
        ),
        plan_of(inputs, target, dir, options).output_files[i] == joined(
            dir.path,
            plan_of(inputs, target, unplaced(dir), options).output_files[i],
        ),
        plan_of(inputs, target, dir, options).total == plan_of(
            inputs,
            target,
            unplaced(dir),
            options,
        ).total,
{
    let empty = Seq::<char>::empty();
    assert forall|name: Seq<char>| #[trigger] joined(empty, name) == name by {
        assert(empty + name =~= name);
    }
    lemma_step_count(inputs, inputs.len(), target, dir, options);
    lemma_step_count(inputs, inputs.len(), target, unplaced(dir), options);
}

/// The names in a run. The files are named in the order of their stems.
/// No two get the same name. Those that share a stem follow one another,
/// and their suffixes count up by one from file to file; the first of them
/// has none, or the suffix 1 where an earlier file has taken the bare stem.
/// The names depend on the stems and their order alone.
pub proof fn lemma_run_names(stems: Seq<Seq<char>>, i: nat, j: nat)
    requires
        i < j < stems.len(),
        stems.len() <= usize::MAX,
    ensures
        ({
            let sorted = ordered_stems(stems, stable_order(stems, stems.len()));
            let names = assigned_names(sorted, stems.len());
            &&& crate::naming::sorted_texts(sorted)
            &&& names.len() == stems.len()
            &&& names[i as int] != names[j as int]
            &&& names[j as int] == crate::naming::candidate(
                sorted[j as int],
                crate::naming::assigned_suffix(sorted, j),
            )
            &&& sorted[j - 1] == sorted[j as int] ==> crate::naming::assigned_suffix(sorted, j)
                == crate::naming::assigned_suffix(sorted, (j - 1) as nat) + 1
            &&& sorted[j - 1] != sorted[j as int] ==> crate::naming::assigned_suffix(sorted, j)
                <= 1
            &&& sorted[i as int] == sorted[j as int] ==> sorted[j - 1] == sorted[j as int]
        }),
{
    let order = stable_order(stems, stems.len());
    crate::naming::lemma_stable_order(stems, stems.len());
    crate::naming::lemma_ordered_stems_sorted(stems);
    let sorted = ordered_stems(stems, order);
    assert(sorted =~= Seq::new(stems.len(), |p: int| stems[order[p] as int]));
    crate::naming::lemma_names_distinct(sorted, i, j);
    crate::naming::lemma_assigned_prefix(sorted, j, stems.len());
    crate::naming::lemma_suffixes_count_up(sorted, j);
    if sorted[i as int] == sorted[j as int] && i < j - 1 {
        assert(crate::text::text_le(sorted[i as int], sorted[j - 1]));
        assert(crate::text::text_le(sorted[j - 1], sorted[j as int]));
        crate::text::lemma_text_le_antisymmetric(sorted[i as int], sorted[j - 1]);
    }
}

} // verus!
