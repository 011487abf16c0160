//! Which options bear on a run, given what is converted into what.

use vstd::prelude::*;
use crate::color::Color;
use crate::filetypes::FileType;
use crate::finalize::{gives_several, several_results};
use crate::input_file::{InputFile, InputFileView};
use crate::plan::file_views;

verus! {

/// The options that bear on a run.
#[derive(Debug, Clone, Copy, PartialEq, Eq, Structural)]
pub struct AdvancedOptions {
    /// The quality: where the target loses detail.
    pub quality: bool,
    /// The background colour: where a source can be transparent.
    pub background: bool,
    /// Whether the background may be transparent itself: where the target
    /// can be.
    pub background_alpha: bool,
    /// The filter: unless every source is a vector image.
    pub filter: bool,
    /// The resolution: where a source is a document.
    pub dpi: bool,
}

/// Whether one of the formats can hold transparency.
pub open spec fn any_with_alpha(kinds: Seq<FileType>) -> bool {
    exists|i: int| 0 <= i < kinds.len() && (#[trigger] kinds[i]).spec_supports_alpha()
}

/// Whether one of the formats is `kind`.
pub open spec fn any_of_kind(kinds: Seq<FileType>, kind: FileType) -> bool {
    exists|i: int| 0 <= i < kinds.len() && #[trigger] kinds[i] == kind
}

/// Whether every one of the formats is `kind`.
pub open spec fn all_of_kind(kinds: Seq<FileType>, kind: FileType) -> bool {
    forall|i: int| 0 <= i < kinds.len() ==> #[trigger] kinds[i] == kind
}

/// The options that bear on the conversion of sources of the formats
/// `inputs` into `output`.
pub open spec fn advanced_options_of(inputs: Seq<FileType>, output: FileType) -> AdvancedOptions {
    AdvancedOptions {
        quality: output.spec_is_lossy(),
        background: any_with_alpha(inputs),
        background_alpha: output.spec_supports_alpha(),
        filter: !all_of_kind(inputs, FileType::Svg),
        dpi: any_of_kind(inputs, FileType::Pdf),
    }
}

/// Tells which options bear on a run.
pub fn advanced_options(inputs: &Vec<FileType>, output: FileType) -> (r: AdvancedOptions)
    ensures
        r == advanced_options_of(inputs@, output),
{
    let mut alpha: bool = false;
    let mut vectors_only: bool = true;
    let mut document: bool = false;
    let mut i: usize = 0;
    while i < inputs.len()
        invariant
            i <= inputs.len(),
            alpha == any_with_alpha(inputs@.take(i as int)),
            vectors_only == all_of_kind(inputs@.take(i as int), FileType::Svg),
            document == any_of_kind(inputs@.take(i as int), FileType::Pdf),
        decreases inputs.len() - i,
    {
        let kind: FileType = inputs[i];
        proof {
            let before = inputs@.take(i as int);
            let now = inputs@.take(i + 1);
            assert(now[i as int] == kind);
            assert forall|j: int| 0 <= j < i implies now[j] == before[j] by {}
            if any_with_alpha(before) {
                let j = choose|j: int|
                    0 <= j < before.len() && (#[trigger] before[j]).spec_supports_alpha();
                assert(now[j].spec_supports_alpha());
            }
            if any_with_alpha(now) && !kind.spec_supports_alpha() {
                let j = choose|j: int|
                    0 <= j < now.len() && (#[trigger] now[j]).spec_supports_alpha();
                assert(before[j].spec_supports_alpha());
            }
            if any_of_kind(before, FileType::Pdf) {
                let j = choose|j: int| 0 <= j < before.len() && #[trigger] before[j] == FileType::Pdf;
                assert(now[j] == FileType::Pdf);
            }
            if any_of_kind(now, FileType::Pdf) && kind != FileType::Pdf {
                let j = choose|j: int| 0 <= j < now.len() && #[trigger] now[j] == FileType::Pdf;
                assert(before[j] == FileType::Pdf);
            }
            if all_of_kind(now, FileType::Svg) {
                assert forall|j: int| 0 <= j < before.len() implies #[trigger] before[j]
                    == FileType::Svg by {
                    assert(now[j] == FileType::Svg);
                }
            }
        }
        alpha = alpha || kind.supports_alpha();
        vectors_only = vectors_only && matches!(kind, FileType::Svg);
        document = document || matches!(kind, FileType::Pdf);
        i = i + 1;
    }
    assert(inputs@.take(inputs.len() as int) =~= inputs@);
    AdvancedOptions {
        quality: output.is_lossy(),
        background: alpha,
        background_alpha: output.supports_alpha(),
        filter: !vectors_only,
        dpi: document,
    }
}

/// The background that is proposed for a target: none at all where the
/// target can be transparent, else white.
pub fn default_background(output: FileType) -> (c: Color)
    ensures
        c == if output.spec_supports_alpha() {
            Color { alpha: 0, red: 0, green: 0, blue: 0 }
        } else {
            Color { alpha: 255, red: 255, green: 255, blue: 255 }
        },
{
    if output.supports_alpha() {
        Color::rgba(0, 0, 0, 0)
    } else {
        Color::rgb(255, 255, 255)
    }
}

/// The choices on how several results are delivered.
#[derive(Debug, Clone, Copy, PartialEq, Eq, Structural)]
pub struct DeliveryOptions {
    /// Whether one document of all pages can be asked for: where several
    /// results are to become PDF.
    pub single_pdf: bool,
    /// Whether archive or directory can be chosen: where there are several
    /// results, unless they become one document.
    pub compression: bool,
}

/// The choices on how the results of a run are delivered.
pub open spec fn delivery_options_of(
    files: Seq<InputFileView>,
    output: FileType,
    single_pdf_chosen: bool,
) -> DeliveryOptions {
    if gives_several(files, output) {
        DeliveryOptions {
            single_pdf: output == FileType::Pdf,
            compression: output != FileType::Pdf || !single_pdf_chosen,
        }
    } else {
        DeliveryOptions { single_pdf: false, compression: false }
    }
}

/// Tells which choices there are on how the results are delivered.
pub fn delivery_options(files: &Vec<InputFile>, output: FileType, single_pdf_chosen: bool) -> (r:
    DeliveryOptions)
    ensures
        r == delivery_options_of(file_views(files@), output, single_pdf_chosen),
{
    if several_results(files, output) {
        let pdf: bool = matches!(output, FileType::Pdf);
        DeliveryOptions { single_pdf: pdf, compression: !pdf || !single_pdf_chosen }
    } else {
        DeliveryOptions { single_pdf: false, compression: false }
    }
}

} // verus!
