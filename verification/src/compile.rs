//! The compile stage: hands the composed markup to the external typesetting
//! engine and returns the final PDF bytes. Only the engine call is trusted;
//! whether it is invoked at all — never for an empty pair sequence — is
//! verified here.
use crate::errors::GenerationError;
use crate::layout::GridConfig;
use crate::layout::PageMargins;
use crate::layout::RectoVersoImagePair;
use crate::layout::generate_typst_content;
use typst_as_lib::TypstAsLibError;
use typst_as_lib::TypstEngine;
use vstd::prelude::*;

verus! {

/// Relies on the typst typesetting engine (through `typst_as_lib`) and on
/// `typst_pdf::pdf`: compiles `markup`, resolving referenced image files
/// under `root`, and exports the typeset document as PDF bytes. Typesetting
/// reads files from disk, so nothing is promised of which outcome comes
/// back; compilation diagnostics arrive as `CompilationError`, export
/// diagnostics as `ExportError`, and `NoContent` is never produced here.
#[verifier::external_body]
fn compile_markup(markup: &str, root: &str) -> (r: Result<Vec<u8>, GenerationError>)
    ensures
        r matches Err(e) ==> !(e matches GenerationError::NoContent),
{
    let engine = TypstEngine::builder().main_file(markup).with_file_system_resolver(root).build();
    let document = engine.compile().output.map_err(|e| match e {
        TypstAsLibError::TypstSource(diags) => GenerationError::CompilationError(
            diags.iter().map(|d| d.message.to_string()).collect(),
        ),
        other => GenerationError::CompilationError(vec![other.to_string()]),
    })?;
    typst_pdf::pdf(&document, &typst_pdf::PdfOptions::default()).map_err(
        |diags| GenerationError::ExportError(diags.iter().map(|d| d.message.to_string()).collect()),
    )
}

/// Lays out the given leaves with the given profiles and compiles the result
/// to PDF bytes. An empty pair sequence is reported as `NoContent` — and
/// only then: the compiler is never invoked for it.
pub fn generate_pdf_with_config(
    images: &[RectoVersoImagePair],
    margins: &PageMargins,
    config: &GridConfig,
) -> (r: Result<Vec<u8>, GenerationError>)
    ensures
        images@.len() == 0 <==> r == Err::<Vec<u8>, GenerationError>(GenerationError::NoContent),
{
    if images.len() == 0 {
        return Err(GenerationError::NoContent);
    }
    let content = generate_typst_content(images, margins, config);
    compile_markup(content.as_str(), "./")
}

/// `generate_pdf_with_config` under the fixed default margin and grid
/// profiles.
pub fn generate_pdf(images: &[RectoVersoImagePair]) -> (r: Result<Vec<u8>, GenerationError>)
    ensures
        images@.len() == 0 <==> r == Err::<Vec<u8>, GenerationError>(GenerationError::NoContent),
{
    let margins = PageMargins::default();
    let config = GridConfig::default();
    generate_pdf_with_config(images, &margins, &config)
}

} // verus!
