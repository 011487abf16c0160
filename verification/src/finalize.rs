//! The last step of a run: bringing the results to where they are wanted.

use vstd::prelude::*;
use crate::filetypes::{CompressionType, FileType, OutputType};
use crate::input_file::{InputFile, InputFileView};
use crate::plan::file_views;
use crate::magick::{ghostscript_binary_name, ghostscript_program, Invocation, InvocationView};
use crate::outcome::{
    gs_missing, gs_missing_text, move_binary_name, move_program, zip_binary_name, zip_missing,
    zip_missing_text, zip_program, Failure, FailureKind, FailureView,
};
use crate::text::{concat, push_string, push_text};

verus! {

/// The ways in which the results of a run are delivered.
#[derive(Debug, Clone, Copy, PartialEq, Eq, Hash, Structural)]
pub enum OutputShape {
    /// The one result is moved to the destination.
    SingleFile,
    /// The results, one page each, are joined into one document.
    MergedDocument,
    /// All results are moved into the destination directory.
    Directory,
    /// All results are packed into one archive.
    Archive,
}

/// The tools that deliver results.
#[derive(Debug, Clone, Copy, PartialEq, Eq, Hash, Structural)]
pub enum Tool {
    GhostScript,
    Zip,
    Move,
}

impl Tool {
    /// The name of the tool's program.
    pub open spec fn spec_program(self) -> Seq<char> {
        match self {
            Tool::GhostScript => ghostscript_program(),
            Tool::Zip => zip_program(),
            Tool::Move => move_program(),
        }
    }

    /// The name of the tool's program.
    pub fn program(&self) -> (s: &'static str)
        ensures
            s@ == self.spec_program(),
    {
        match self {
            Tool::GhostScript => ghostscript_binary_name(),
            Tool::Zip => zip_binary_name(),
            Tool::Move => move_binary_name(),
        }
    }
}

/// The shape in which `results` results are delivered as `save_format`:
/// several pages that are to be one PDF are merged; any other single format
/// means one file; else the results go to a directory or into an archive.
pub open spec fn shape_of(save_format: OutputType, results: nat) -> OutputShape {
    match save_format {
        OutputType::File(FileType::Pdf) => if results > 1 {
            OutputShape::MergedDocument
        } else {
            OutputShape::SingleFile
        },
        OutputType::File(_) => OutputShape::SingleFile,
        OutputType::Compression(CompressionType::Directory) => OutputShape::Directory,
        OutputType::Compression(CompressionType::Zip) => OutputShape::Archive,
    }
}

/// Tells the shape in which `results` results are delivered.
pub fn output_shape(save_format: OutputType, results: usize) -> (shape: OutputShape)
    ensures
        shape == shape_of(save_format, results as nat),
{
    match save_format {
        OutputType::File(FileType::Pdf) => {
            if results > 1 {
                OutputShape::MergedDocument
            } else {
                OutputShape::SingleFile
            }
        },
        OutputType::File(_) => OutputShape::SingleFile,
        OutputType::Compression(CompressionType::Directory) => OutputShape::Directory,
        OutputType::Compression(CompressionType::Zip) => OutputShape::Archive,
    }
}

impl OutputShape {
    /// The tool that delivers in this shape.
    pub open spec fn spec_tool(self) -> Tool {
        match self {
            OutputShape::SingleFile => Tool::Move,
            OutputShape::MergedDocument => Tool::GhostScript,
            OutputShape::Directory => Tool::Move,
            OutputShape::Archive => Tool::Zip,
        }
    }

    /// Whether it has to be made sure that the tool is installed before it
    /// is called: so for the document renderer and the archiver.
    pub open spec fn spec_needs_check(self) -> bool {
        self == OutputShape::MergedDocument || self == OutputShape::Archive
    }

    /// The tool that delivers in this shape.
    pub fn tool(&self) -> (t: Tool)
        ensures
            t == self.spec_tool(),
    {
        match self {
            OutputShape::SingleFile => Tool::Move,
            OutputShape::MergedDocument => Tool::GhostScript,
            OutputShape::Directory => Tool::Move,
            OutputShape::Archive => Tool::Zip,
        }
    }

    /// Whether it has to be made sure that the tool is installed.
    pub fn needs_check(&self) -> (r: bool)
        ensures
            r == self.spec_needs_check(),
    {
        matches!(self, OutputShape::MergedDocument | OutputShape::Archive)
    }
}

/// The arguments with which the results are delivered.
pub open spec fn delivery_arguments(
    shape: OutputShape,
    results: Seq<Seq<char>>,
    destination: Seq<char>,
) -> Seq<Seq<char>> {
    match shape {
        OutputShape::SingleFile => seq![results[0], destination],
        OutputShape::MergedDocument => seq![
            "-dNOPAUSE"@,
            "-sDEVICE=pdfwrite"@,
            "-sOUTPUTFILE="@ + destination,
            "-dBATCH"@,
        ] + results,
        OutputShape::Directory => results.push(destination),
        OutputShape::Archive => seq!["-jFSm0"@, destination] + results,
    }
}

/// The call that delivers the results.
pub open spec fn delivery(
    shape: OutputShape,
    results: Seq<Seq<char>>,
    destination: Seq<char>,
) -> InvocationView {
    InvocationView {
        program: shape.spec_tool().spec_program(),
        args: delivery_arguments(shape, results, destination),
    }
}

/// What is said where the tool of a shape is not installed.
pub open spec fn missing_tool_failure(shape: OutputShape) -> FailureView {
    FailureView {
        kind: FailureKind::ToolMissing,
        message: if shape == OutputShape::Archive {
            zip_missing_text()
        } else {
            gs_missing_text()
        },
    }
}

/// What is to be done to deliver the results.
#[derive(Debug, Clone, PartialEq, Eq)]
pub enum Delivery {
    /// The run was cancelled: nothing is delivered and nothing is told.
    Abandon,
    /// The run fails without a process having been started.
    Fail(Failure),
    /// This call delivers the results; its process is followed like that
    /// of any step.
    Run(Invocation),
}

/// What a [`Delivery`] holds, as plain values.
pub enum DeliveryView {
    Abandon,
    Fail(FailureView),
    Run(InvocationView),
}

impl View for Delivery {
    type V = DeliveryView;

    open spec fn view(&self) -> DeliveryView {
        match self {
            Delivery::Abandon => DeliveryView::Abandon,
            Delivery::Fail(f) => DeliveryView::Fail(f@),
            Delivery::Run(i) => DeliveryView::Run(i@),
        }
    }
}

/// What is said where there is nothing to deliver.
pub open spec fn nothing_to_deliver() -> FailureView {
    FailureView { kind: FailureKind::PlanningDefect, message: "no result to deliver"@ }
}

/// How the results are delivered. A cancelled run delivers nothing. A
/// single file cannot be delivered where there is no result. Where the
/// shape's tool has to be checked and is not installed, the run fails
/// before any process is started, with the words for that tool.
pub open spec fn delivery_of(
    save_format: OutputType,
    destination: Seq<char>,
    results: Seq<Seq<char>>,
    cancelled: bool,
    tool_installed: bool,
) -> DeliveryView {
    let shape = shape_of(save_format, results.len());
    if cancelled {
        DeliveryView::Abandon
    } else if shape.spec_needs_check() && !tool_installed {
        DeliveryView::Fail(missing_tool_failure(shape))
    } else if shape == OutputShape::SingleFile && results.len() == 0 {
        DeliveryView::Fail(nothing_to_deliver())
    } else {
        DeliveryView::Run(delivery(shape, results, destination))
    }
}

fn delivery_call(shape: OutputShape, results: &Vec<String>, destination: &str) -> (inv: Invocation)
    requires
        shape == OutputShape::SingleFile ==> results.len() > 0,
    ensures
        inv@ == delivery(shape, results.deep_view(), destination@),
{
    let ghost rv = results.deep_view();
    let mut args: Vec<String> = Vec::new();
    assert(args.deep_view() =~= Seq::<Seq<char>>::empty());
    let mut tail: bool = true;
    match shape {
        OutputShape::SingleFile => {
            push_text(&mut args, results[0].as_str());
            push_text(&mut args, destination);
            assert(rv[0] == results@[0]@);
            assert(args.deep_view() =~= delivery_arguments(shape, rv, destination@));
            tail = false;
        },
        OutputShape::MergedDocument => {
            push_text(&mut args, "-dNOPAUSE");
            push_text(&mut args, "-sDEVICE=pdfwrite");
            push_string(&mut args, concat("-sOUTPUTFILE=", destination));
            push_text(&mut args, "-dBATCH");
        },
        OutputShape::Directory => {},
        OutputShape::Archive => {
            push_text(&mut args, "-jFSm0");
            push_text(&mut args, destination);
        },
    }
    if tail {
        let ghost head = args.deep_view();
        let mut i: usize = 0;
        while i < results.len()
            invariant
                i <= results.len(),
                rv == results.deep_view(),
                args.deep_view() == head + rv.take(i as int),
            decreases results.len() - i,
        {
            push_text(&mut args, results[i].as_str());
            assert(rv[i as int] == results@[i as int]@);
            assert(rv.take(i + 1) =~= rv.take(i as int).push(rv[i as int]));
            assert(args.deep_view() =~= head + rv.take(i + 1));
            i = i + 1;
        }
        assert(rv.take(results.len() as int) =~= rv);
        if matches!(shape, OutputShape::Directory) {
            push_text(&mut args, destination);
        }
        assert(args.deep_view() =~= delivery_arguments(shape, rv, destination@));
    }
    Invocation { program: String::from_str(shape.tool().program()), args }
}

/// Decides how the results of a run are delivered to `path`.
///
/// `output_files` are the results, `cancelled` tells whether the run was
/// cancelled, and `tool_installed` whether the tool of the shape is
/// installed, which counts for the document renderer and the archiver
/// alone.
pub fn move_output(
    save_format: OutputType,
    path: &str,
    output_files: &Vec<String>,
    cancelled: bool,
    tool_installed: bool,
) -> (d: Delivery)
    ensures
        d@ == delivery_of(save_format, path@, output_files.deep_view(), cancelled, tool_installed),
{
    let shape: OutputShape = output_shape(save_format, output_files.len());
    if cancelled {
        Delivery::Abandon
    } else if shape.needs_check() && !tool_installed {
        let message: String = if matches!(shape, OutputShape::Archive) {
            zip_missing()
        } else {
            gs_missing()
        };
        Delivery::Fail(Failure { kind: FailureKind::ToolMissing, message })
    } else if matches!(shape, OutputShape::SingleFile) && output_files.len() == 0 {
        Delivery::Fail(
            Failure {
                kind: FailureKind::PlanningDefect,
                message: String::from_str("no result to deliver"),
            },
        )
    } else {
        Delivery::Run(delivery_call(shape, output_files, path))
    }
}

/// The number of frames in all the files.
pub open spec fn total_frames(files: Seq<InputFileView>, n: nat) -> nat
    decreases n,
{
    if n == 0 {
        0
    } else {
        total_frames(files, (n - 1) as nat) + files[n - 1].frames
    }
}

/// Whether a run gives several results: it has several files, or several
/// frames that the target cannot hold together.
pub open spec fn gives_several(files: Seq<InputFileView>, target: FileType) -> bool {
    files.len() > 1 || (total_frames(files, files.len()) > 1 && !target.spec_supports_animation())
}

/// The form in which the results of a run are saved. One result is saved
/// as a file of the target format. Several are saved as one PDF where that
/// is the target and was asked for, else in the way of delivery that was
/// chosen.
pub open spec fn save_format_of(
    files: Seq<InputFileView>,
    target: FileType,
    single_pdf: bool,
    compression: CompressionType,
) -> OutputType {
    if gives_several(files, target) {
        if target == FileType::Pdf && single_pdf {
            OutputType::File(FileType::Pdf)
        } else {
            OutputType::Compression(compression)
        }
    } else {
        OutputType::File(target)
    }
}

/// The name that is proposed for what is saved: where there are several
/// results `images`, else the stem of the one file, with the extension of
/// the form in which it is saved.
pub open spec fn proposed_name(several: bool, stem: Seq<char>, save_format: OutputType) -> Seq<
    char,
> {
    (if several {
        "images"@
    } else {
        stem
    }) + seq!['.'] + save_format.spec_extension()
}

/// Tells whether a run gives several results.
pub fn several_results(files: &Vec<InputFile>, target: FileType) -> (r: bool)
    ensures
        r == gives_several(file_views(files@), target),
{
    let ghost fv = file_views(files@);
    if files.len() > 1 {
        return true;
    }
    if target.supports_animation() {
        return false;
    }
    if files.len() == 0 {
        return false;
    }
    assert(fv[0] == files@[0]@);
    assert(total_frames(fv, 1) == fv[0].frames) by {
        reveal_with_fuel(total_frames, 2);
    }
    files[0].frames() > 1
}

/// Picks the form in which the results of a run are saved.
pub fn save_format_for(
    files: &Vec<InputFile>,
    target: FileType,
    single_pdf: bool,
    compression: CompressionType,
) -> (r: OutputType)
    ensures
        r == save_format_of(file_views(files@), target, single_pdf, compression),
{
    if several_results(files, target) {
        if matches!(target, FileType::Pdf) && single_pdf {
            OutputType::File(FileType::Pdf)
        } else {
            OutputType::Compression(compression)
        }
    } else {
        OutputType::File(target)
    }
}

/// Proposes a name for what is saved.
pub fn default_file_name(several: bool, stem: &str, save_format: OutputType) -> (r: String)
    ensures
        r@ == proposed_name(several, stem@, save_format),
{
    proof {
        reveal_strlit(".");
    }
    let mut r: String = if several {
        String::from_str("images")
    } else {
        String::from_str(stem)
    };
    r.append(".");
    r.append(save_format.as_extension());
    assert(r@ =~= proposed_name(several, stem@, save_format));
    r
}

/// Whether what is saved is a directory, which is chosen as a folder and
/// not as a file.
pub fn saves_to_folder(save_format: OutputType) -> (r: bool)
    ensures
        r == (save_format == OutputType::Compression(CompressionType::Directory)),
{
    matches!(save_format, OutputType::Compression(CompressionType::Directory))
}

} // verus!
