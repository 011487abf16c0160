//! The formats that can be read or written, and the ways in which several
//! results can be delivered together.

use vstd::prelude::*;
use crate::text::str_eq;

verus! {

/// An image or document format.
#[derive(Clone, Copy, Debug, PartialEq, Eq, Hash, Structural)]
pub enum FileType {
    Png,
    Jpeg,
    Jpg,
    Webp,
    Svg,
    Heif,
    Heic,
    Bmp,
    Avif,
    Jxl,
    Tiff,
    Pdf,
    Gif,
    Ico,
    Dds,
    Unknown,
}

impl Default for FileType {
    fn default() -> (t: Self)
        ensures
            t == FileType::Unknown,
    {
        FileType::Unknown
    }
}

/// Every format but `Unknown`, in the order in which they are offered.
pub open spec fn known_formats() -> Seq<FileType> {
    seq![FileType::Png, FileType::Jpg, FileType::Jpeg, FileType::Webp, FileType::Svg, FileType::Heif, FileType::Heic, FileType::Bmp, FileType::Avif, FileType::Jxl, FileType::Tiff, FileType::Pdf, FileType::Gif, FileType::Ico, FileType::Dds]
}

/// The formats offered as a target when the rarer ones are shown too.
pub open spec fn all_output_formats() -> Seq<FileType> {
    seq![FileType::Png, FileType::Jpg, FileType::Webp, FileType::Heif, FileType::Heic, FileType::Bmp, FileType::Avif, FileType::Jxl, FileType::Tiff, FileType::Pdf, FileType::Gif, FileType::Ico, FileType::Dds]
}

/// The formats offered as a target at first.
pub open spec fn popular_output_formats() -> Seq<FileType> {
    seq![FileType::Png, FileType::Jpg, FileType::Webp, FileType::Heif, FileType::Pdf, FileType::Gif, FileType::Ico]
}

/// The format that a MIME type stands for, if any.
pub open spec fn format_of_mime(m: Seq<char>) -> Option<FileType> {
    if m == "image/png"@ {
        Some(FileType::Png)
    } else     if m == "image/jpeg"@ {
        Some(FileType::Jpg)
    } else     if m == "image/jpg"@ {
        Some(FileType::Jpg)
    } else     if m == "image/webp"@ {
        Some(FileType::Webp)
    } else     if m == "image/svg+xml"@ {
        Some(FileType::Svg)
    } else     if m == "image/heif"@ {
        Some(FileType::Heif)
    } else     if m == "image/heic"@ {
        Some(FileType::Heic)
    } else     if m == "image/bmp"@ {
        Some(FileType::Bmp)
    } else     if m == "image/avif"@ {
        Some(FileType::Avif)
    } else     if m == "image/jxl"@ {
        Some(FileType::Jxl)
    } else     if m == "image/tiff"@ {
        Some(FileType::Tiff)
    } else     if m == "application/pdf"@ {
        Some(FileType::Pdf)
    } else     if m == "image/gif"@ {
        Some(FileType::Gif)
    } else     if m == "image/x-icon"@ {
        Some(FileType::Ico)
    } else     if m == "image/vnd-ms.dds"@ {
        Some(FileType::Dds)
    } else {
        None
    }
}

/// The format that a file extension stands for, if any.
pub open spec fn format_of_extension(e: Seq<char>) -> Option<FileType> {
    if e == "png"@ {
        Some(FileType::Png)
    } else     if e == "jpg"@ {
        Some(FileType::Jpg)
    } else     if e == "jpeg"@ {
        Some(FileType::Jpg)
    } else     if e == "webp"@ {
        Some(FileType::Webp)
    } else     if e == "svg"@ {
        Some(FileType::Svg)
    } else     if e == "heif"@ {
        Some(FileType::Heif)
    } else     if e == "heic"@ {
        Some(FileType::Heic)
    } else     if e == "bmp"@ {
        Some(FileType::Bmp)
    } else     if e == "avif"@ {
        Some(FileType::Avif)
    } else     if e == "jxl"@ {
        Some(FileType::Jxl)
    } else     if e == "tiff"@ {
        Some(FileType::Tiff)
    } else     if e == "pdf"@ {
        Some(FileType::Pdf)
    } else     if e == "gif"@ {
        Some(FileType::Gif)
    } else     if e == "ico"@ {
        Some(FileType::Ico)
    } else     if e == "dds"@ {
        Some(FileType::Dds)
    } else {
        None
    }
}

impl FileType {
    /// Whether files of this format can be read.
    pub open spec fn spec_is_input(self) -> bool {
        self != FileType::Unknown
    }

    /// Whether the format can hold several frames that play in time.
    pub open spec fn spec_supports_animation(self) -> bool {
        self == FileType::Webp || self == FileType::Gif
    }

    /// Whether writing the format loses detail.
    pub open spec fn spec_is_lossy(self) -> bool {
        self == FileType::Jpg || self == FileType::Jpeg || self == FileType::Webp || self == FileType::Heif || self == FileType::Heic || self == FileType::Avif || self == FileType::Jxl || self == FileType::Tiff || self == FileType::Pdf || self == FileType::Dds
    }

    /// Whether the format can hold transparency.
    pub open spec fn spec_supports_alpha(self) -> bool {
        self == FileType::Png || self == FileType::Webp || self == FileType::Svg || self == FileType::Heif || self == FileType::Heic || self == FileType::Avif || self == FileType::Jxl || self == FileType::Pdf || self == FileType::Ico || self == FileType::Gif
    }

    /// Whether a preview of the format can be loaded directly.
    pub open spec fn spec_supports_pixbuf(self) -> bool {
        !(self == FileType::Pdf || self == FileType::Dds || self == FileType::Ico)
    }

    /// Whether files of this format can be written.
    pub open spec fn spec_is_output(self) -> bool {
        self != FileType::Svg && self != FileType::Unknown
    }

    /// The MIME type of the format; empty for `Unknown`.
    pub open spec fn spec_mime(self) -> Seq<char> {
        match self {
            FileType::Png => "image/png"@,
            FileType::Jpeg => "image/jpeg"@,
            FileType::Jpg => "image/jpeg"@,
            FileType::Webp => "image/webp"@,
            FileType::Svg => "image/svg+xml"@,
            FileType::Heif => "image/heif"@,
            FileType::Heic => "image/heic"@,
            FileType::Bmp => "image/bmp"@,
            FileType::Avif => "image/avif"@,
            FileType::Jxl => "image/jxl"@,
            FileType::Tiff => "image/tiff"@,
            FileType::Pdf => "application/pdf"@,
            FileType::Gif => "image/gif"@,
            FileType::Ico => "image/x-icon"@,
            FileType::Dds => "image/vnd-ms.dds"@,
            FileType::Unknown => ""@,
        }
    }

    /// The file extension of the format, without a dot; empty for `Unknown`.
    pub open spec fn spec_extension(self) -> Seq<char> {
        match self {
            FileType::Png => "png"@,
            FileType::Jpeg => "jpeg"@,
            FileType::Jpg => "jpg"@,
            FileType::Webp => "webp"@,
            FileType::Svg => "svg"@,
            FileType::Heif => "heif"@,
            FileType::Heic => "heic"@,
            FileType::Bmp => "bmp"@,
            FileType::Avif => "avif"@,
            FileType::Jxl => "jxl"@,
            FileType::Tiff => "tiff"@,
            FileType::Pdf => "pdf"@,
            FileType::Gif => "gif"@,
            FileType::Ico => "ico"@,
            FileType::Dds => "dds"@,
            FileType::Unknown => ""@,
        }
    }

    /// The name under which the format is shown: its extension in capitals.
    pub open spec fn spec_display(self) -> Seq<char> {
        match self {
            FileType::Png => "PNG"@,
            FileType::Jpeg => "JPEG"@,
            FileType::Jpg => "JPG"@,
            FileType::Webp => "WEBP"@,
            FileType::Svg => "SVG"@,
            FileType::Heif => "HEIF"@,
            FileType::Heic => "HEIC"@,
            FileType::Bmp => "BMP"@,
            FileType::Avif => "AVIF"@,
            FileType::Jxl => "JXL"@,
            FileType::Tiff => "TIFF"@,
            FileType::Pdf => "PDF"@,
            FileType::Gif => "GIF"@,
            FileType::Ico => "ICO"@,
            FileType::Dds => "DDS"@,
            FileType::Unknown => ""@,
        }
    }

    pub fn is_input(&self) -> (r: bool)
        ensures
            r == self.spec_is_input(),
    {
        matches!(
            self,
            FileType::Png | FileType::Jpg | FileType::Jpeg | FileType::Webp | FileType::Svg | FileType::Heif | FileType::Heic | FileType::Bmp | FileType::Avif | FileType::Jxl | FileType::Tiff | FileType::Pdf | FileType::Gif | FileType::Ico | FileType::Dds
        )
    }

    pub fn supports_animation(&self) -> (r: bool)
        ensures
            r == self.spec_supports_animation(),
    {
        matches!(self, FileType::Webp | FileType::Gif)
    }

    pub fn is_lossy(&self) -> (r: bool)
        ensures
            r == self.spec_is_lossy(),
    {
        matches!(
            self,
            FileType::Jpg | FileType::Jpeg | FileType::Webp | FileType::Heif | FileType::Heic | FileType::Avif | FileType::Jxl | FileType::Tiff | FileType::Pdf | FileType::Dds
        )
    }

    pub fn supports_alpha(&self) -> (r: bool)
        ensures
            r == self.spec_supports_alpha(),
    {
        matches!(
            self,
            FileType::Png | FileType::Webp | FileType::Svg | FileType::Heif | FileType::Heic | FileType::Avif | FileType::Jxl | FileType::Pdf | FileType::Ico | FileType::Gif
        )
    }

    pub fn supports_pixbuf(&self) -> (r: bool)
        ensures
            r == self.spec_supports_pixbuf(),
    {
        !matches!(self, FileType::Pdf | FileType::Dds | FileType::Ico)
    }

    pub fn is_output(&self) -> (r: bool)
        ensures
            r == self.spec_is_output(),
    {
        matches!(
            self,
            FileType::Png | FileType::Jpg | FileType::Jpeg | FileType::Webp | FileType::Heif | FileType::Heic | FileType::Bmp | FileType::Avif | FileType::Jxl | FileType::Tiff | FileType::Pdf | FileType::Gif | FileType::Ico | FileType::Dds
        )
    }

    /// Every format but `Unknown`.
    pub fn iterator() -> (v: Vec<FileType>)
        ensures
            v@ == known_formats(),
    {
        let v: Vec<FileType> = vec![FileType::Png, FileType::Jpg, FileType::Jpeg, FileType::Webp, FileType::Svg, FileType::Heif, FileType::Heic, FileType::Bmp, FileType::Avif, FileType::Jxl, FileType::Tiff, FileType::Pdf, FileType::Gif, FileType::Ico, FileType::Dds];
        assert(v@ =~= known_formats());
        v
    }

    /// The formats that can be read.
    pub fn input_formats() -> (v: Vec<FileType>)
        ensures
            v@ == known_formats(),
            forall|i: int| 0 <= i < v@.len() ==> (#[trigger] v@[i]).spec_is_input(),
    {
        let v: Vec<FileType> = vec![FileType::Png, FileType::Jpg, FileType::Jpeg, FileType::Webp, FileType::Svg, FileType::Heif, FileType::Heic, FileType::Bmp, FileType::Avif, FileType::Jxl, FileType::Tiff, FileType::Pdf, FileType::Gif, FileType::Ico, FileType::Dds];
        assert(v@ =~= known_formats());
        v
    }

    /// The formats offered as a target: all of them where `hidden` is set,
    /// else the popular ones.
    pub fn output_formats(hidden: bool) -> (v: Vec<FileType>)
        ensures
            v@ == if hidden { all_output_formats() } else { popular_output_formats() },
            forall|i: int| 0 <= i < v@.len() ==> (#[trigger] v@[i]).spec_is_output(),
    {
        if hidden {
            let v: Vec<FileType> = vec![FileType::Png, FileType::Jpg, FileType::Webp, FileType::Heif, FileType::Heic, FileType::Bmp, FileType::Avif, FileType::Jxl, FileType::Tiff, FileType::Pdf, FileType::Gif, FileType::Ico, FileType::Dds];
            assert(v@ =~= all_output_formats());
            v
        } else {
            let v: Vec<FileType> = vec![FileType::Png, FileType::Jpg, FileType::Webp, FileType::Heif, FileType::Pdf, FileType::Gif, FileType::Ico];
            assert(v@ =~= popular_output_formats());
            v
        }
    }

    pub fn as_mime(&self) -> (s: &'static str)
        ensures
            s@ == self.spec_mime(),
    {
        match self {
            FileType::Png => "image/png",
            FileType::Jpeg => "image/jpeg",
            FileType::Jpg => "image/jpeg",
            FileType::Webp => "image/webp",
            FileType::Svg => "image/svg+xml",
            FileType::Heif => "image/heif",
            FileType::Heic => "image/heic",
            FileType::Bmp => "image/bmp",
            FileType::Avif => "image/avif",
            FileType::Jxl => "image/jxl",
            FileType::Tiff => "image/tiff",
            FileType::Pdf => "application/pdf",
            FileType::Gif => "image/gif",
            FileType::Ico => "image/x-icon",
            FileType::Dds => "image/vnd-ms.dds",
            FileType::Unknown => "",
        }
    }

    pub fn from_mimetype(mimetype: &str) -> (r: Option<Self>)
        ensures
            r == format_of_mime(mimetype@),
    {
        if str_eq(mimetype, "image/png") {
            Some(FileType::Png)
        } else         if str_eq(mimetype, "image/jpeg") {
            Some(FileType::Jpg)
        } else         if str_eq(mimetype, "image/jpg") {
            Some(FileType::Jpg)
        } else         if str_eq(mimetype, "image/webp") {
            Some(FileType::Webp)
        } else         if str_eq(mimetype, "image/svg+xml") {
            Some(FileType::Svg)
        } else         if str_eq(mimetype, "image/heif") {
            Some(FileType::Heif)
        } else         if str_eq(mimetype, "image/heic") {
            Some(FileType::Heic)
        } else         if str_eq(mimetype, "image/bmp") {
            Some(FileType::Bmp)
        } else         if str_eq(mimetype, "image/avif") {
            Some(FileType::Avif)
        } else         if str_eq(mimetype, "image/jxl") {
            Some(FileType::Jxl)
        } else         if str_eq(mimetype, "image/tiff") {
            Some(FileType::Tiff)
        } else         if str_eq(mimetype, "application/pdf") {
            Some(FileType::Pdf)
        } else         if str_eq(mimetype, "image/gif") {
            Some(FileType::Gif)
        } else         if str_eq(mimetype, "image/x-icon") {
            Some(FileType::Ico)
        } else         if str_eq(mimetype, "image/vnd-ms.dds") {
            Some(FileType::Dds)
        } else {
            None
        }
    }

    pub fn as_extension(&self) -> (s: &'static str)
        ensures
            s@ == self.spec_extension(),
    {
        match self {
            FileType::Png => "png",
            FileType::Jpeg => "jpeg",
            FileType::Jpg => "jpg",
            FileType::Webp => "webp",
            FileType::Svg => "svg",
            FileType::Heif => "heif",
            FileType::Heic => "heic",
            FileType::Bmp => "bmp",
            FileType::Avif => "avif",
            FileType::Jxl => "jxl",
            FileType::Tiff => "tiff",
            FileType::Pdf => "pdf",
            FileType::Gif => "gif",
            FileType::Ico => "ico",
            FileType::Dds => "dds",
            FileType::Unknown => "",
        }
    }

    pub fn as_display_string(&self) -> (s: String)
        ensures
            s@ == self.spec_display(),
    {
        let s: &'static str = match self {
            FileType::Png => "PNG",
            FileType::Jpeg => "JPEG",
            FileType::Jpg => "JPG",
            FileType::Webp => "WEBP",
            FileType::Svg => "SVG",
            FileType::Heif => "HEIF",
            FileType::Heic => "HEIC",
            FileType::Bmp => "BMP",
            FileType::Avif => "AVIF",
            FileType::Jxl => "JXL",
            FileType::Tiff => "TIFF",
            FileType::Pdf => "PDF",
            FileType::Gif => "GIF",
            FileType::Ico => "ICO",
            FileType::Dds => "DDS",
            FileType::Unknown => "",
        };
        String::from_str(s)
    }

    pub fn from_string(extension: &str) -> (r: Option<Self>)
        ensures
            r == format_of_extension(extension@),
    {
        if str_eq(extension, "png") {
            Some(FileType::Png)
        } else         if str_eq(extension, "jpg") {
            Some(FileType::Jpg)
        } else         if str_eq(extension, "jpeg") {
            Some(FileType::Jpg)
        } else         if str_eq(extension, "webp") {
            Some(FileType::Webp)
        } else         if str_eq(extension, "svg") {
            Some(FileType::Svg)
        } else         if str_eq(extension, "heif") {
            Some(FileType::Heif)
        } else         if str_eq(extension, "heic") {
            Some(FileType::Heic)
        } else         if str_eq(extension, "bmp") {
            Some(FileType::Bmp)
        } else         if str_eq(extension, "avif") {
            Some(FileType::Avif)
        } else         if str_eq(extension, "jxl") {
            Some(FileType::Jxl)
        } else         if str_eq(extension, "tiff") {
            Some(FileType::Tiff)
        } else         if str_eq(extension, "pdf") {
            Some(FileType::Pdf)
        } else         if str_eq(extension, "gif") {
            Some(FileType::Gif)
        } else         if str_eq(extension, "ico") {
            Some(FileType::Ico)
        } else         if str_eq(extension, "dds") {
            Some(FileType::Dds)
        } else {
            None
        }
    }
}

/// A way to deliver several results together.
#[derive(Clone, Copy, Debug, PartialEq, Eq, Hash, Structural)]
pub enum CompressionType {
    Zip,
    Directory,
}

/// Both ways of delivery.
pub open spec fn all_compression_types() -> Seq<CompressionType> {
    seq![CompressionType::Zip, CompressionType::Directory]
}

/// The ways of delivery that pack the results into one file.
pub open spec fn archive_types() -> Seq<CompressionType> {
    seq![CompressionType::Zip]
}

/// The way of delivery that a name stands for, if any.
pub open spec fn compression_of_extension(e: Seq<char>) -> Option<CompressionType> {
    if e == "zip"@ {
        Some(CompressionType::Zip)
    } else if e == "directory"@ {
        Some(CompressionType::Directory)
    } else {
        None
    }
}

impl CompressionType {
    /// Whether the results are packed into one file.
    pub open spec fn spec_is_compression(self) -> bool {
        self == CompressionType::Zip
    }

    pub open spec fn spec_mime(self) -> Seq<char> {
        match self {
            CompressionType::Zip => "application/zip"@,
            CompressionType::Directory => "inode/directory"@,
        }
    }

    pub open spec fn spec_extension(self) -> Seq<char> {
        match self {
            CompressionType::Zip => "zip"@,
            CompressionType::Directory => "directory"@,
        }
    }

    pub open spec fn spec_display(self) -> Seq<char> {
        match self {
            CompressionType::Zip => "ZIP"@,
            CompressionType::Directory => "Directory"@,
        }
    }

    pub fn is_compression(&self) -> (r: bool)
        ensures
            r == self.spec_is_compression(),
    {
        matches!(self, CompressionType::Zip)
    }

    /// Both ways of delivery.
    pub fn iterator() -> (v: Vec<CompressionType>)
        ensures
            v@ == all_compression_types(),
    {
        let v: Vec<CompressionType> = vec![CompressionType::Zip, CompressionType::Directory];
        assert(v@ =~= all_compression_types());
        v
    }

    /// The ways of delivery that pack the results into one file.
    pub fn compression_formats() -> (v: Vec<CompressionType>)
        ensures
            v@ == archive_types(),
    {
        let v: Vec<CompressionType> = vec![CompressionType::Zip];
        assert(v@ =~= archive_types());
        v
    }

    /// The ways of delivery on offer: inside a sandbox only an archive can be
    /// written, outside of one a directory too.
    pub fn possible_output(sandboxed: bool) -> (v: Vec<CompressionType>)
        ensures
            v@ == if sandboxed { archive_types() } else { all_compression_types() },
    {
        if sandboxed {
            let v: Vec<CompressionType> = vec![CompressionType::Zip];
            assert(v@ =~= archive_types());
            v
        } else {
            let v: Vec<CompressionType> = vec![CompressionType::Zip, CompressionType::Directory];
            assert(v@ =~= all_compression_types());
            v
        }
    }

    pub fn as_mime(&self) -> (s: &'static str)
        ensures
            s@ == self.spec_mime(),
    {
        match self {
            CompressionType::Zip => "application/zip",
            CompressionType::Directory => "inode/directory",
        }
    }

    pub fn as_extension(&self) -> (s: &'static str)
        ensures
            s@ == self.spec_extension(),
    {
        match self {
            CompressionType::Zip => "zip",
            CompressionType::Directory => "directory",
        }
    }

    pub fn as_display_string(&self) -> (s: String)
        ensures
            s@ == self.spec_display(),
    {
        match self {
            CompressionType::Zip => String::from_str("ZIP"),
            CompressionType::Directory => String::from_str("Directory"),
        }
    }

    pub fn from_string(extension: &str) -> (r: Option<Self>)
        ensures
            r == compression_of_extension(extension@),
    {
        if str_eq(extension, "zip") {
            Some(CompressionType::Zip)
        } else if str_eq(extension, "directory") {
            Some(CompressionType::Directory)
        } else {
            None
        }
    }
}

/// What a run delivers: one file of a format, or several results together.
#[derive(Clone, Copy, Debug, PartialEq, Eq, Hash, Structural)]
pub enum OutputType {
    File(FileType),
    Compression(CompressionType),
}

/// What a name stands for: a way of delivery, else a format, else nothing.
pub open spec fn output_of_extension(e: Seq<char>) -> Option<OutputType> {
    match compression_of_extension(e) {
        Some(c) => Some(OutputType::Compression(c)),
        None => match format_of_extension(e) {
            Some(f) => Some(OutputType::File(f)),
            None => None,
        },
    }
}

impl OutputType {
    pub open spec fn spec_mime(self) -> Seq<char> {
        match self {
            OutputType::File(f) => f.spec_mime(),
            OutputType::Compression(c) => c.spec_mime(),
        }
    }

    pub open spec fn spec_extension(self) -> Seq<char> {
        match self {
            OutputType::File(f) => f.spec_extension(),
            OutputType::Compression(c) => c.spec_extension(),
        }
    }

    pub fn as_mime(&self) -> (s: &'static str)
        ensures
            s@ == self.spec_mime(),
    {
        match self {
            OutputType::File(f) => f.as_mime(),
            OutputType::Compression(c) => c.as_mime(),
        }
    }

    pub fn from_string(extension: &str) -> (r: Option<Self>)
        ensures
            r == output_of_extension(extension@),
    {
        match CompressionType::from_string(extension) {
            Some(c) => Some(OutputType::Compression(c)),
            None => match FileType::from_string(extension) {
                Some(f) => Some(OutputType::File(f)),
                None => None,
            },
        }
    }

    pub fn as_extension(&self) -> (s: &'static str)
        ensures
            s@ == self.spec_extension(),
    {
        match self {
            OutputType::File(f) => f.as_extension(),
            OutputType::Compression(c) => c.as_extension(),
        }
    }
}

/// The capital letter of a small letter; any other character itself.
pub open spec fn upper(c: char) -> char {
    if 'a' <= c && c <= 'z' {
        ((c as u32 - 32) as u8) as char
    } else {
        c
    }
}

/// The name under which a format is shown is its extension in capitals.
pub proof fn lemma_display_is_upper_extension(t: FileType)
    ensures
        t.spec_display() == t.spec_extension().map_values(|c: char| upper(c)),
{
    reveal_strlit("png");
    reveal_strlit("jpeg");
    reveal_strlit("jpg");
    reveal_strlit("webp");
    reveal_strlit("svg");
    reveal_strlit("heif");
    reveal_strlit("heic");
    reveal_strlit("bmp");
    reveal_strlit("avif");
    reveal_strlit("jxl");
    reveal_strlit("tiff");
    reveal_strlit("pdf");
    reveal_strlit("gif");
    reveal_strlit("ico");
    reveal_strlit("dds");
    reveal_strlit("PNG");
    reveal_strlit("JPEG");
    reveal_strlit("JPG");
    reveal_strlit("WEBP");
    reveal_strlit("SVG");
    reveal_strlit("HEIF");
    reveal_strlit("HEIC");
    reveal_strlit("BMP");
    reveal_strlit("AVIF");
    reveal_strlit("JXL");
    reveal_strlit("TIFF");
    reveal_strlit("PDF");
    reveal_strlit("GIF");
    reveal_strlit("ICO");
    reveal_strlit("DDS");
    reveal_strlit("");
    assert(t.spec_display() =~= t.spec_extension().map_values(|c: char| upper(c)));
}

/// The formats on offer as a target are formats that can be written, and
/// the popular ones are among all of them.
pub proof fn lemma_output_formats()
    ensures
        forall|i: int|
            0 <= i < all_output_formats().len() ==> (#[trigger] all_output_formats()[i]).spec_is_output(),
        forall|i: int|
            0 <= i < popular_output_formats().len() ==> all_output_formats().contains(
                #[trigger] popular_output_formats()[i],
            ),
{
    let all = all_output_formats();
    assert(all[0] == FileType::Png);
    assert(all[1] == FileType::Jpg);
    assert(all[2] == FileType::Webp);
    assert(all[3] == FileType::Heif);
    assert(all[9] == FileType::Pdf);
    assert(all[10] == FileType::Gif);
    assert(all[11] == FileType::Ico);
}

} // verus!
