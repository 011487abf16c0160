//! The files that are to be converted.

use vstd::prelude::*;
use crate::filetypes::{format_of_mime, FileType};

verus! {

/// A file that was chosen for conversion: where it lies, what it is and,
/// once it has been looked at, how many frames or pages it has and how
/// large it is.
#[derive(Debug, Clone, PartialEq, Eq)]
pub struct InputFile {
    path: String,
    kind: FileType,
    frames: usize,
    is_behind_sandbox: bool,
    width: Option<usize>,
    height: Option<usize>,
}

/// What an [`InputFile`] holds, as plain values.
pub struct InputFileView {
    pub path: Seq<char>,
    pub kind: FileType,
    pub frames: nat,
    pub is_behind_sandbox: bool,
    pub width: Option<usize>,
    pub height: Option<usize>,
}

impl View for InputFile {
    type V = InputFileView;

    closed spec fn view(&self) -> InputFileView {
        InputFileView {
            path: self.path@,
            kind: self.kind,
            frames: self.frames as nat,
            is_behind_sandbox: self.is_behind_sandbox,
            width: self.width,
            height: self.height,
        }
    }
}

/// Whether the path `path` begins with the path `base`, component by
/// component, as `std::path::Path::starts_with` tells.
pub uninterp spec fn path_within(path: Seq<char>, base: Seq<char>) -> bool;

/// Calls `std::path::Path::starts_with`. The contract names the answer and
/// claims nothing else of it: the same two paths give the same answer.
#[verifier::external_body]
fn path_starts_with(path: &str, base: &str) -> (r: bool)
    ensures
        r == path_within(path@, base@),
{
    std::path::Path::new(path).starts_with(base)
}

/// The directory below which the files of the users lie.
pub open spec fn home_directory() -> Seq<char> {
    "/home"@
}

/// The file that nothing was chosen for.
pub open spec fn empty_file() -> InputFileView {
    InputFileView {
        path: "/invalid-path"@,
        kind: FileType::Unknown,
        frames: 1,
        is_behind_sandbox: true,
        width: None,
        height: None,
    }
}

impl Default for InputFile {
    fn default() -> (f: Self)
        ensures
            f@ == empty_file(),
    {
        Self::empty()
    }
}

impl InputFile {
    /// The file at `path` whose content has the MIME type `mimetype`, with
    /// one frame and no size known yet; nothing where the type is none that
    /// can be read. `under_home` tells whether the file lies below the home
    /// directory; one that does not is taken to lie behind the sandbox.
    pub fn from_parts(path: &str, mimetype: &str, under_home: bool) -> (r: Option<Self>)
        ensures
            match format_of_mime(mimetype@) {
                Some(kind) => r is Some && r->0@ == (InputFileView {
                    path: path@,
                    kind,
                    frames: 1,
                    is_behind_sandbox: !under_home,
                    width: None,
                    height: None,
                }),
                None => r is None,
            },
    {
        match FileType::from_mimetype(mimetype) {
            Some(kind) => Some(
                InputFile {
                    path: String::from_str(path),
                    kind,
                    frames: 1,
                    is_behind_sandbox: !under_home,
                    width: None,
                    height: None,
                },
            ),
            None => None,
        }
    }

    /// The file at `path` whose content has the MIME type `mimetype`, with
    /// one frame and no size known yet; nothing where the type is none that
    /// can be read. A file that does not lie below the home directory is
    /// taken to lie behind the sandbox.
    pub fn new(path: &str, mimetype: &str) -> (r: Option<Self>)
        ensures
            match format_of_mime(mimetype@) {
                Some(kind) => r is Some && r->0@ == (InputFileView {
                    path: path@,
                    kind,
                    frames: 1,
                    is_behind_sandbox: !path_within(path@, home_directory()),
                    width: None,
                    height: None,
                }),
                None => r is None,
            },
    {
        let under_home: bool = path_starts_with(path, "/home");
        Self::from_parts(path, mimetype, under_home)
    }

    /// The file that nothing was chosen for.
    pub fn empty() -> (f: Self)
        ensures
            f@ == empty_file(),
    {
        InputFile {
            path: String::from_str("/invalid-path"),
            kind: FileType::Unknown,
            frames: 1,
            is_behind_sandbox: true,
            width: None,
            height: None,
        }
    }

    pub fn frames(&self) -> (r: usize)
        ensures
            r == self@.frames,
    {
        self.frames
    }

    pub fn width(&self) -> (r: Option<usize>)
        ensures
            r == self@.width,
    {
        self.width
    }

    pub fn height(&self) -> (r: Option<usize>)
        ensures
            r == self@.height,
    {
        self.height
    }

    /// Width and height, where both are known.
    pub fn dimensions(&self) -> (r: Option<(usize, usize)>)
        ensures
            r == match (self@.width, self@.height) {
                (Some(w), Some(h)) => Some((w, h)),
                _ => None,
            },
    {
        match (self.width, self.height) {
            (Some(w), Some(h)) => Some((w, h)),
            _ => None,
        }
    }

    pub fn set_frames(&mut self, f: usize)
        ensures
            final(self)@ == (InputFileView { frames: f as nat, ..old(self)@ }),
    {
        self.frames = f;
    }

    pub fn set_width(&mut self, f: usize)
        ensures
            final(self)@ == (InputFileView { width: Some(f), ..old(self)@ }),
    {
        self.width = Some(f);
    }

    pub fn set_height(&mut self, f: usize)
        ensures
            final(self)@ == (InputFileView { height: Some(f), ..old(self)@ }),
    {
        self.height = Some(f);
    }

    /// The number of pixels, where width and height are known and their
    /// product is a number of the machine.
    pub fn area(&self) -> (r: Option<usize>)
        ensures
            r == match (self@.width, self@.height) {
                (Some(w), Some(h)) => if w * h <= usize::MAX {
                    Some((w * h) as usize)
                } else {
                    None
                },
                _ => None,
            },
    {
        match (self.width, self.height) {
            (Some(w), Some(h)) => w.checked_mul(h),
            _ => None,
        }
    }

    pub fn path(&self) -> (r: String)
        ensures
            r@ == self@.path,
    {
        self.path.clone()
    }

    pub fn is_behind_sandbox(&self) -> (r: bool)
        ensures
            r == self@.is_behind_sandbox,
    {
        self.is_behind_sandbox
    }

    pub fn kind(&self) -> (r: FileType)
        ensures
            r == self@.kind,
    {
        self.kind
    }
}

} // verus!
