//! The steps of a conversion and the command lines that carry them out.

use vstd::prelude::*;
use crate::color::{hex_notation, Color};
use crate::filetypes::FileType;
use crate::temp::{joined, Workspace, WorkspaceView};
use crate::text::{
    concat, decimal, decimal_string, decimal_string_wide, ends_with, push_all, push_string,
    push_text, str_ends_with,
};

verus! {

/// The name of the tool that converts images.
pub open spec fn magick_program() -> Seq<char> {
    "magick"@
}

/// The name of the tool that renders documents.
pub open spec fn ghostscript_program() -> Seq<char> {
    "gs"@
}

/// The name of the tool that renders documents.
pub fn ghostscript_binary_name() -> (s: &'static str)
    ensures
        s@ == ghostscript_program(),
{
    "gs"
}

/// The name of the tool that converts images.
pub fn magick_binary_name() -> (s: &'static str)
    ensures
        s@ == magick_program(),
{
    "magick"
}

/// The way in which pixels are resampled when an image is resized.
#[derive(Debug, Clone, Copy, PartialEq, Eq, Structural)]
pub enum ResizeFilter {
    Default,
    Point,
}

impl ResizeFilter {
    /// The name of the filter on a command line; the default one has none.
    pub open spec fn spec_display(self) -> Option<Seq<char>> {
        match self {
            ResizeFilter::Default => None,
            ResizeFilter::Point => Some("Point"@),
        }
    }

    pub fn as_display_string(&self) -> (r: Option<&'static str>)
        ensures
            r is Some == self.spec_display() is Some,
            r is Some ==> r->0@ == self.spec_display()->0,
    {
        match self {
            ResizeFilter::Default => None,
            ResizeFilter::Point => Some("Point"),
        }
    }

    /// The filter at a position of the list in which filters are offered.
    pub fn from_index(index: usize) -> (r: Option<Self>)
        ensures
            r == if index == 0 {
                Some(ResizeFilter::Default)
            } else if index == 1 {
                Some(ResizeFilter::Point)
            } else {
                None
            },
    {
        match index {
            0 => Some(ResizeFilter::Default),
            1 => Some(ResizeFilter::Point),
            _ => None,
        }
    }
}

/// The two ways in which a new size can be given.
#[derive(Debug, Clone, Copy, PartialEq, Eq, Structural)]
pub enum ResizeType {
    Percentage,
    ExactPixels,
}

impl ResizeType {
    /// The way at a position of the list in which they are offered.
    pub fn from_index(index: usize) -> (r: Option<Self>)
        ensures
            r == if index == 0 {
                Some(ResizeType::Percentage)
            } else if index == 1 {
                Some(ResizeType::ExactPixels)
            } else {
                None
            },
    {
        match index {
            0 => Some(ResizeType::Percentage),
            1 => Some(ResizeType::ExactPixels),
            _ => None,
        }
    }
}

/// The size that the result is to have: relative to the source, or in pixels.
#[derive(Debug, Clone, Copy, PartialEq, Eq, Hash, Structural)]
pub enum ResizeArgument {
    Percentage { width: usize, height: usize },
    ExactPixels { width: usize, height: usize },
}

impl Default for ResizeArgument {
    fn default() -> (r: Self)
        ensures
            r == (ResizeArgument::Percentage { width: 100, height: 100 }),
    {
        Self::Percentage { width: 100, height: 100 }
    }
}

impl ResizeArgument {
    /// The size from the way it is given and its two numbers.
    pub fn from_parts(kind: ResizeType, width: usize, height: usize) -> (r: Self)
        ensures
            r == match kind {
                ResizeType::Percentage => ResizeArgument::Percentage { width, height },
                ResizeType::ExactPixels => ResizeArgument::ExactPixels { width, height },
            },
    {
        match kind {
            ResizeType::Percentage => ResizeArgument::Percentage { width, height },
            ResizeType::ExactPixels => ResizeArgument::ExactPixels { width, height },
        }
    }
}

/// The geometry `W%xH%`.
pub open spec fn percent_geometry(width: nat, height: nat) -> Seq<char> {
    decimal(width) + seq!['%', 'x'] + decimal(height) + seq!['%']
}

/// The geometry `WxH!`, which sets both sides whatever the proportions.
pub open spec fn forced_geometry(width: nat, height: nat) -> Seq<char> {
    decimal(width) + seq!['x'] + decimal(height) + seq!['!']
}

/// The geometry `WxH`.
pub open spec fn plain_geometry(width: nat, height: nat) -> Seq<char> {
    decimal(width) + seq!['x'] + decimal(height)
}

/// The density, in dots per inch, at which a vector image is drawn so that
/// it comes out at `percent` per cent of its natural size: 96 at 100.
pub open spec fn density_of(percent: nat) -> nat {
    percent * 96 / 100
}

/// Something that contributes arguments to the command line of the image
/// converter.
pub trait MagickArgument {
    /// The arguments, in order.
    spec fn spec_argument(&self) -> Seq<Seq<char>>;

    fn get_argument(&self) -> (r: Vec<String>)
        ensures
            r.deep_view() == self.spec_argument(),
    ;
}

impl MagickArgument for ResizeFilter {
    open spec fn spec_argument(&self) -> Seq<Seq<char>> {
        match self.spec_display() {
            Some(name) => seq!["-filter"@, name],
            None => Seq::empty(),
        }
    }

    fn get_argument(&self) -> (r: Vec<String>) {
        let mut r: Vec<String> = Vec::new();
        assert(r.deep_view() =~= Seq::<Seq<char>>::empty());
        match self.as_display_string() {
            Some(name) => {
                push_text(&mut r, "-filter");
                push_text(&mut r, name);
                assert(r.deep_view() =~= self.spec_argument());
            },
            None => {},
        }
        r
    }
}

impl MagickArgument for ResizeArgument {
    open spec fn spec_argument(&self) -> Seq<Seq<char>> {
        match *self {
            ResizeArgument::Percentage { width, height } => seq![
                "-resize"@,
                percent_geometry(width as nat, height as nat),
            ],
            ResizeArgument::ExactPixels { width, height } => seq![
                "-resize"@,
                forced_geometry(width as nat, height as nat),
            ],
        }
    }

    fn get_argument(&self) -> (r: Vec<String>) {
        let mut r: Vec<String> = Vec::new();
        assert(r.deep_view() =~= Seq::<Seq<char>>::empty());
        push_text(&mut r, "-resize");
        proof {
            reveal_strlit("%x");
            reveal_strlit("%");
            reveal_strlit("x");
            reveal_strlit("!");
        }
        match *self {
            ResizeArgument::Percentage { width, height } => {
                let mut g: String = decimal_string(width);
                g.append("%x");
                g.append(decimal_string(height).as_str());
                g.append("%");
                assert(g@ =~= percent_geometry(width as nat, height as nat));
                push_string(&mut r, g);
            },
            ResizeArgument::ExactPixels { width, height } => {
                let mut g: String = decimal_string(width);
                g.append("x");
                g.append(decimal_string(height).as_str());
                g.append("!");
                assert(g@ =~= forced_geometry(width as nat, height as nat));
                push_string(&mut r, g);
            },
        }
        assert(r.deep_view() =~= self.spec_argument());
        r
    }
}

impl<T: MagickArgument> MagickArgument for Option<T> {
    open spec fn spec_argument(&self) -> Seq<Seq<char>> {
        match self {
            Some(t) => t.spec_argument(),
            None => Seq::empty(),
        }
    }

    fn get_argument(&self) -> (r: Vec<String>) {
        match self {
            Some(t) => t.get_argument(),
            None => {
                let r: Vec<String> = Vec::new();
                assert(r.deep_view() =~= Seq::<Seq<char>>::empty());
                r
            },
        }
    }
}

/// One call of an external tool: the program's name and its arguments.
#[derive(Debug, Clone, PartialEq, Eq)]
pub struct Invocation {
    pub program: String,
    pub args: Vec<String>,
}

/// What an [`Invocation`] holds, as plain sequences.
pub struct InvocationView {
    pub program: Seq<char>,
    pub args: Seq<Seq<char>>,
}

impl View for Invocation {
    type V = InvocationView;

    open spec fn view(&self) -> InvocationView {
        InvocationView { program: self.program@, args: self.args.deep_view() }
    }
}

/// A step that converts an image with the image converter.
#[derive(Debug, Clone)]
pub struct MagickConvertJob {
    /// The source; a frame of it is named in square brackets behind the path.
    pub input_file: String,
    /// The file that the step writes.
    pub output_file: String,
    /// The colour that shows where the image is transparent.
    pub background: Color,
    /// The quality of the result, from 0 to 100. It is handed on as it is,
    /// whether the target loses detail or not.
    pub quality: usize,
    /// Whether the frames are brought onto one canvas. The plan sets this on
    /// the steps that keep every frame; such a step does so in any case.
    pub coalesce: bool,
    /// Whether one frame is flattened onto the background rather than every
    /// frame kept.
    pub first_frame: bool,
    /// The filter to resample with, if one is named.
    pub filter: Option<ResizeFilter>,
    /// The size of the result.
    pub resize_arg: ResizeArgument,
    /// Whether the alpha channel is switched off after flattening.
    pub remove_alpha: bool,
}

/// What a [`MagickConvertJob`] holds, as plain values.
pub struct MagickJobView {
    pub input_file: Seq<char>,
    pub output_file: Seq<char>,
    pub background: Color,
    pub quality: nat,
    pub coalesce: bool,
    pub first_frame: bool,
    pub filter: Option<ResizeFilter>,
    pub resize_arg: ResizeArgument,
    pub remove_alpha: bool,
}

impl View for MagickConvertJob {
    type V = MagickJobView;

    open spec fn view(&self) -> MagickJobView {
        MagickJobView {
            input_file: self.input_file@,
            output_file: self.output_file@,
            background: self.background,
            quality: self.quality as nat,
            coalesce: self.coalesce,
            first_frame: self.first_frame,
            filter: self.filter,
            resize_arg: self.resize_arg,
            remove_alpha: self.remove_alpha,
        }
    }
}

/// A step that renders one page of a document with the document renderer.
#[derive(Debug, Clone)]
pub struct GhostScriptConvertJob {
    /// The document.
    pub input_file: String,
    /// The file that the step writes.
    pub output_file: String,
    /// The page, counted from 0.
    pub page: usize,
    /// The resolution in dots per inch.
    pub dpi: usize,
}

/// What a [`GhostScriptConvertJob`] holds, as plain values.
pub struct GhostScriptJobView {
    pub input_file: Seq<char>,
    pub output_file: Seq<char>,
    pub page: nat,
    pub dpi: nat,
}

impl View for GhostScriptConvertJob {
    type V = GhostScriptJobView;

    open spec fn view(&self) -> GhostScriptJobView {
        GhostScriptJobView {
            input_file: self.input_file@,
            output_file: self.output_file@,
            page: self.page as nat,
            dpi: self.dpi as nat,
        }
    }
}

/// The source of a step that reads the first frame of a vector image.
pub open spec fn is_vector_source(input_file: Seq<char>) -> bool {
    ends_with(input_file, ".svg[0]"@)
}

/// The arguments that size a vector image while it is drawn: an exact size
/// as it stands, a percentage as a density. Only the percentage of the width
/// counts.
pub open spec fn vector_size_arguments(resize: ResizeArgument) -> Seq<Seq<char>> {
    match resize {
        ResizeArgument::ExactPixels { width, height } => seq![
            "-size"@,
            plain_geometry(width as nat, height as nat),
        ],
        ResizeArgument::Percentage { width, height } => seq![
            "-density"@,
            decimal(density_of(width as nat)),
        ],
    }
}

/// The arguments of a step that flattens one frame onto the background.
/// The background and the size of a vector image come before the source, so
/// that they hold while it is read; the resize comes after it.
pub open spec fn flatten_arguments(job: MagickJobView) -> Seq<Seq<char>> {
    let vector = is_vector_source(job.input_file);
    (if vector { vector_size_arguments(job.resize_arg) } else { Seq::empty() })
        + seq!["-background"@, hex_notation(job.background), job.input_file, "-flatten"@]
        + (if job.remove_alpha { seq!["-alpha"@, "off"@] } else { Seq::empty() })
        + seq!["-quality"@, decimal(job.quality)]
        + job.filter.spec_argument()
        + (if vector { Seq::empty() } else { job.resize_arg.spec_argument() })
        + seq![job.output_file]
}

/// The arguments of a step that keeps every frame: the frames are brought
/// onto one canvas, and only what is fully transparent takes the background.
pub open spec fn animation_arguments(job: MagickJobView) -> Seq<Seq<char>> {
    let vector = is_vector_source(job.input_file);
    seq![
        job.input_file,
        "-coalesce"@,
        "-fill"@,
        hex_notation(job.background),
        "-opaque"@,
        "none"@,
        "-quality"@,
        decimal(job.quality),
    ] + job.filter.spec_argument()
        + (if vector { Seq::empty() } else { job.resize_arg.spec_argument() })
        + seq![job.output_file]
}

/// The command line of an image step.
pub open spec fn magick_invocation(job: MagickJobView) -> InvocationView {
    InvocationView {
        program: magick_program(),
        args: if job.first_frame {
            flatten_arguments(job)
        } else {
            animation_arguments(job)
        },
    }
}

/// The command line of a document step. Pages count from 0 in a step and
/// from 1 on the command line; the resolution applies to this kind of step
/// alone.
pub open spec fn ghostscript_invocation(job: GhostScriptJobView) -> InvocationView {
    InvocationView {
        program: ghostscript_program(),
        args: seq![
            "-sDEVICE=png16m"@,
            "-dTextAlphaBits=4"@,
            "-dFirstPage="@ + decimal(job.page + 1),
            "-dLastPage="@ + decimal(job.page + 1),
            "-o"@,
            job.output_file,
            "-r"@ + decimal(job.dpi),
            job.input_file,
        ],
    }
}

impl GhostScriptConvertJob {
    /// The command line that renders the page.
    pub fn get_command(&self) -> (inv: Invocation)
        ensures
            inv@ == ghostscript_invocation(self@),
    {
        let mut args: Vec<String> = Vec::new();
        assert(args.deep_view() =~= Seq::<Seq<char>>::empty());
        let page: String = decimal_string_wide(self.page as u128 + 1);
        push_text(&mut args, "-sDEVICE=png16m");
        push_text(&mut args, "-dTextAlphaBits=4");
        push_string(&mut args, concat("-dFirstPage=", page.as_str()));
        push_string(&mut args, concat("-dLastPage=", page.as_str()));
        push_text(&mut args, "-o");
        push_text(&mut args, self.output_file.as_str());
        push_string(&mut args, concat("-r", decimal_string(self.dpi).as_str()));
        push_text(&mut args, self.input_file.as_str());
        assert(args.deep_view() =~= ghostscript_invocation(self@).args);
        Invocation { program: String::from_str(ghostscript_binary_name()), args }
    }
}

fn vector_size(resize: ResizeArgument) -> (r: Vec<String>)
    ensures
        r.deep_view() == vector_size_arguments(resize),
{
    let mut r: Vec<String> = Vec::new();
    assert(r.deep_view() =~= Seq::<Seq<char>>::empty());
    match resize {
        ResizeArgument::ExactPixels { width, height } => {
            proof {
                reveal_strlit("x");
            }
            let mut g: String = decimal_string(width);
            g.append("x");
            g.append(decimal_string(height).as_str());
            assert(g@ =~= plain_geometry(width as nat, height as nat));
            push_text(&mut r, "-size");
            push_string(&mut r, g);
        },
        ResizeArgument::Percentage { width, height } => {
            let density: u128 = (width as u128) * 96 / 100;
            push_text(&mut r, "-density");
            push_string(&mut r, decimal_string_wide(density));
        },
    }
    assert(r.deep_view() =~= vector_size_arguments(resize));
    r
}

impl MagickConvertJob {
    /// The command line that carries the step out.
    pub fn get_command(&self) -> (inv: Invocation)
        ensures
            inv@ == magick_invocation(self@),
    {
        let vector: bool = str_ends_with(self.input_file.as_str(), ".svg[0]");
        let background: String = self.background.as_hex_string();
        let mut args: Vec<String> = Vec::new();
        assert(args.deep_view() =~= Seq::<Seq<char>>::empty());
        if self.first_frame {
            if vector {
                push_all(&mut args, vector_size(self.resize_arg));
            }
            push_text(&mut args, "-background");
            push_string(&mut args, background);
            push_text(&mut args, self.input_file.as_str());
            push_text(&mut args, "-flatten");
            if self.remove_alpha {
                push_text(&mut args, "-alpha");
                push_text(&mut args, "off");
            }
        } else {
            push_text(&mut args, self.input_file.as_str());
            push_text(&mut args, "-coalesce");
            push_text(&mut args, "-fill");
            push_string(&mut args, background);
            push_text(&mut args, "-opaque");
            push_text(&mut args, "none");
        }
        push_text(&mut args, "-quality");
        push_string(&mut args, decimal_string(self.quality));
        push_all(&mut args, self.filter.get_argument());
        if !vector {
            push_all(&mut args, self.resize_arg.get_argument());
        }
        push_text(&mut args, self.output_file.as_str());
        assert(args.deep_view() =~= magick_invocation(self@).args);
        Invocation { program: String::from_str(magick_binary_name()), args }
    }
}

/// One step of a conversion: a single call of one of the two tools.
#[derive(Debug, Clone)]
pub enum ConvertJob {
    GhostScript(GhostScriptConvertJob),
    Magick(MagickConvertJob),
}

/// What a [`ConvertJob`] holds, as plain values.
pub enum ConvertJobView {
    GhostScript(GhostScriptJobView),
    Magick(MagickJobView),
}

impl View for ConvertJob {
    type V = ConvertJobView;

    open spec fn view(&self) -> ConvertJobView {
        match self {
            ConvertJob::GhostScript(g) => ConvertJobView::GhostScript(g@),
            ConvertJob::Magick(m) => ConvertJobView::Magick(m@),
        }
    }
}

impl ConvertJobView {
    /// The file that the step reads.
    pub open spec fn input_file(self) -> Seq<char> {
        match self {
            ConvertJobView::GhostScript(g) => g.input_file,
            ConvertJobView::Magick(m) => m.input_file,
        }
    }

    /// The file that the step writes.
    pub open spec fn output_file(self) -> Seq<char> {
        match self {
            ConvertJobView::GhostScript(g) => g.output_file,
            ConvertJobView::Magick(m) => m.output_file,
        }
    }

    /// The command line of the step.
    pub open spec fn invocation(self) -> InvocationView {
        match self {
            ConvertJobView::GhostScript(g) => ghostscript_invocation(g),
            ConvertJobView::Magick(m) => magick_invocation(m),
        }
    }
}

impl ConvertJob {
    /// The command line that carries the step out.
    pub fn get_command(&self) -> (inv: Invocation)
        ensures
            inv@ == self@.invocation(),
    {
        match self {
            ConvertJob::GhostScript(g) => g.get_command(),
            ConvertJob::Magick(m) => m.get_command(),
        }
    }
}

/// A file of the workspace: its number, the name that it is to have, if one
/// was asked for, and its format.
#[derive(Debug, Clone, PartialEq, Eq, Hash)]
pub struct JobFile {
    pub id: usize,
    pub desired_name: Option<String>,
    pub file_extension: FileType,
}

/// What a [`JobFile`] holds, as plain values.
pub struct JobFileView {
    pub id: nat,
    pub desired_name: Option<Seq<char>>,
    pub file_extension: FileType,
}

/// The name of a file that was given no name: it is made of the file's
/// number and the extension of its format.
pub open spec fn numbered_name(id: nat, format: FileType) -> Seq<char> {
    "TEMPORARY_SWITCHEROO_"@ + decimal(id) + seq!['.'] + format.spec_extension()
}

impl JobFileView {
    /// The file's name in the workspace.
    pub open spec fn filename(self) -> Seq<char> {
        match self.desired_name {
            Some(name) => name,
            None => numbered_name(self.id, self.file_extension),
        }
    }
}

impl View for JobFile {
    type V = JobFileView;

    open spec fn view(&self) -> JobFileView {
        JobFileView {
            id: self.id as nat,
            desired_name: match self.desired_name {
                Some(name) => Some(name@),
                None => None,
            },
            file_extension: self.file_extension,
        }
    }
}

impl JobFile {
    /// A new file of the workspace, with the next number.
    pub fn new(dir: &mut Workspace, file_extension: FileType, desired_name: Option<String>) -> (f:
        Self)
        requires
            old(dir).issued < usize::MAX,
        ensures
            final(dir)@ == (WorkspaceView { issued: old(dir)@.issued + 1, ..old(dir)@ }),
            f.id == old(dir).issued + 1,
            f.desired_name == desired_name,
            f.file_extension == file_extension,
    {
        dir.issued = dir.issued + 1;
        Self { id: dir.issued, desired_name, file_extension }
    }

    /// A new file for an image that was pasted rather than opened. It is a
    /// PNG, named by `label`, the words under which a pasted image is shown.
    pub fn from_clipboard(dir: &mut Workspace, label: &str) -> (f: Self)
        requires
            old(dir).issued < usize::MAX,
        ensures
            final(dir)@ == (WorkspaceView { issued: old(dir)@.issued + 1, ..old(dir)@ }),
            f@ == (JobFileView {
                id: old(dir)@.issued + 1,
                desired_name: Some(label@ + ".png"@),
                file_extension: FileType::Png,
            }),
    {
        dir.issued = dir.issued + 1;
        Self {
            id: dir.issued,
            desired_name: Some(concat(label, ".png")),
            file_extension: FileType::Png,
        }
    }

    /// The file's name in the workspace.
    pub fn as_filename(&self) -> (s: String)
        ensures
            s@ == self@.filename(),
    {
        match &self.desired_name {
            Some(desired_name) => desired_name.clone(),
            None => {
                proof {
                    reveal_strlit(".");
                }
                let mut s: String = concat(
                    "TEMPORARY_SWITCHEROO_",
                    decimal_string(self.id).as_str(),
                );
                s.append(".");
                s.append(self.file_extension.as_extension());
                assert(s@ =~= numbered_name(self.id as nat, self.file_extension));
                s
            },
        }
    }
}

/// The views of a list of steps, in order.
pub open spec fn job_views(jobs: Seq<ConvertJob>) -> Seq<ConvertJobView> {
    jobs.map_values(|j: ConvertJob| j@)
}

/// The step that renders page `page` of a document into a PNG.
pub open spec fn render_step(
    input: Seq<char>,
    page: nat,
    output: Seq<char>,
    defaults: GhostScriptJobView,
) -> ConvertJobView {
    ConvertJobView::GhostScript(
        GhostScriptJobView { input_file: input, output_file: output, page, ..defaults },
    )
}

/// Whether a step from `input_type` to `output_type` has to drop the alpha
/// channel: the source can hold one and the target cannot.
pub open spec fn must_remove_alpha(input_type: FileType, output_type: FileType) -> bool {
    input_type.spec_supports_alpha() && !output_type.spec_supports_alpha()
}

/// The step that converts an image. Where both formats can hold an
/// animation every frame is kept; else one frame is flattened onto the
/// background.
pub open spec fn image_step(
    input: Seq<char>,
    input_type: FileType,
    output: Seq<char>,
    output_type: FileType,
    defaults: MagickJobView,
) -> ConvertJobView {
    if input_type.spec_supports_animation() && output_type.spec_supports_animation() {
        ConvertJobView::Magick(
            MagickJobView {
                input_file: input,
                output_file: output,
                first_frame: false,
                coalesce: true,
                ..defaults
            },
        )
    } else {
        ConvertJobView::Magick(
            MagickJobView {
                input_file: input,
                output_file: output,
                first_frame: true,
                coalesce: false,
                remove_alpha: must_remove_alpha(input_type, output_type),
                ..defaults
            },
        )
    }
}

/// Whether a conversion takes two steps: a document that is to become
/// anything but a PNG is first rendered into a PNG.
pub open spec fn needs_intermediate(input_type: FileType, output_type: FileType) -> bool {
    input_type == FileType::Pdf && output_type != FileType::Png
}

/// The steps that turn one frame or page of a source into one result, in
/// the order in which they run.
///
/// A page of a document becomes a PNG in one step of the document renderer.
/// For any other target the page is rendered into a numbered PNG of the
/// workspace, which is then converted as an image of its own. Anything else
/// is one step of the image converter. Every image step takes the options
/// as they are, the size among them.
pub open spec fn planned_steps(
    input: Seq<char>,
    frame: nat,
    input_type: FileType,
    output: Seq<char>,
    output_type: FileType,
    dir: WorkspaceView,
    magick_defaults: MagickJobView,
    ghost_defaults: GhostScriptJobView,
) -> Seq<ConvertJobView> {
    if input_type == FileType::Pdf && output_type == FileType::Png {
        seq![render_step(input, frame, output, ghost_defaults)]
    } else if input_type == FileType::Pdf {
        let between = joined(dir.path, numbered_name(dir.issued + 1, FileType::Png));
        seq![
            render_step(input, frame, between, ghost_defaults),
            image_step(between, FileType::Png, output, output_type, magick_defaults),
        ]
    } else {
        seq![image_step(input, input_type, output, output_type, magick_defaults)]
    }
}

fn image_job(
    input_path: &str,
    input_type: &FileType,
    output_path: &str,
    output_type: &FileType,
    defaults: &MagickConvertJob,
) -> (job: ConvertJob)
    ensures
        job@ == image_step(input_path@, *input_type, output_path@, *output_type, defaults@),
{
    if input_type.supports_animation() && output_type.supports_animation() {
        ConvertJob::Magick(
            MagickConvertJob {
                input_file: String::from_str(input_path),
                output_file: String::from_str(output_path),
                background: defaults.background,
                quality: defaults.quality,
                coalesce: true,
                first_frame: false,
                filter: defaults.filter,
                resize_arg: defaults.resize_arg,
                remove_alpha: defaults.remove_alpha,
            },
        )
    } else {
        ConvertJob::Magick(
            MagickConvertJob {
                input_file: String::from_str(input_path),
                output_file: String::from_str(output_path),
                background: defaults.background,
                quality: defaults.quality,
                coalesce: false,
                first_frame: true,
                filter: defaults.filter,
                resize_arg: defaults.resize_arg,
                remove_alpha: input_type.supports_alpha() && !output_type.supports_alpha(),
            },
        )
    }
}

/// Plans the steps that turn one frame or page of a source into one result.
///
/// `default_arguments` hold the options of the run; the files and the page
/// in them are not read. Where the conversion takes an intermediate file,
/// the workspace gives it the next number.
pub fn generate_job(
    input_path: &str,
    frame: usize,
    input_type: &FileType,
    output_path: &str,
    output_type: &FileType,
    dir: &mut Workspace,
    default_arguments: (&MagickConvertJob, &GhostScriptConvertJob),
) -> (jobs: Vec<ConvertJob>)
    requires
        needs_intermediate(*input_type, *output_type) ==> old(dir).issued < usize::MAX,
    ensures
        job_views(jobs@) == planned_steps(
            input_path@,
            frame as nat,
            *input_type,
            output_path@,
            *output_type,
            old(dir)@,
            default_arguments.0@,
            default_arguments.1@,
        ),
        final(dir)@.path == old(dir)@.path,
        final(dir)@.issued == old(dir)@.issued + if needs_intermediate(
            *input_type,
            *output_type,
        ) {
            1nat
        } else {
            0nat
        },
    decreases
            (if needs_intermediate(*input_type, *output_type) {
                1nat
            } else {
                0nat
            }),
{
    let ghost start = dir@;
    let ghost want = planned_steps(
        input_path@,
        frame as nat,
        *input_type,
        output_path@,
        *output_type,
        start,
        default_arguments.0@,
        default_arguments.1@,
    );
    let mut jobs: Vec<ConvertJob> = Vec::new();
    match (input_type, output_type) {
        (FileType::Pdf, FileType::Png) => {
            jobs.push(
                ConvertJob::GhostScript(
                    GhostScriptConvertJob {
                        input_file: String::from_str(input_path),
                        output_file: String::from_str(output_path),
                        page: frame,
                        dpi: default_arguments.1.dpi,
                    },
                ),
            );
            assert(job_views(jobs@) =~= want);
        },
        (FileType::Pdf, _) => {
            let between_file: JobFile = JobFile::new(dir, FileType::Png, None);
            let between: String = crate::temp::get_temp_file_path(dir, between_file);
            let mut first: Vec<ConvertJob> = generate_job(
                input_path,
                frame,
                input_type,
                between.as_str(),
                &FileType::Png,
                dir,
                default_arguments,
            );
            let mut second: Vec<ConvertJob> = generate_job(
                between.as_str(),
                0,
                &FileType::Png,
                output_path,
                output_type,
                dir,
                default_arguments,
            );
            proof {
                assert(job_views(first@).len() == 1);
                assert(job_views(second@).len() == 1);
                assert(job_views(first@)[0] == first@[0]@);
                assert(job_views(second@)[0] == second@[0]@);
                assert(between@ == joined(
                    start.path,
                    numbered_name(start.issued + 1, FileType::Png),
                ));
            }
            let ghost one = first@;
            let ghost two = second@;
            jobs.append(&mut first);
            jobs.append(&mut second);
            assert(jobs@ =~= one + two);
            assert(job_views(jobs@) =~= want);
        },
        _ => {
            jobs.push(
                image_job(input_path, input_type, output_path, output_type, default_arguments.0),
            );
            assert(job_views(jobs@) =~= want);
        },
    }
    jobs
}

/// Every step of a plan carries the options of the run as they are: an
/// image step the background, the quality, the filter and the size, a
/// document step the resolution.
pub proof fn lemma_steps_carry_options(
    input: Seq<char>,
    frame: nat,
    input_type: FileType,
    output: Seq<char>,
    output_type: FileType,
    dir: WorkspaceView,
    magick_defaults: MagickJobView,
    ghost_defaults: GhostScriptJobView,
    i: int,
)
    requires
        0 <= i < planned_steps(
            input,
            frame,
            input_type,
            output,
            output_type,
            dir,
            magick_defaults,
            ghost_defaults,
        ).len(),
    ensures
        match planned_steps(
            input,
            frame,
            input_type,
            output,
            output_type,
            dir,
            magick_defaults,
            ghost_defaults,
        )[i] {
            ConvertJobView::Magick(m) => {
                &&& m.background == magick_defaults.background
                &&& m.quality == magick_defaults.quality
                &&& m.filter == magick_defaults.filter
                &&& m.resize_arg == magick_defaults.resize_arg
            },
            ConvertJobView::GhostScript(g) => g.dpi == ghost_defaults.dpi,
        },
{
}

} // verus!
