//! The sequential end-to-end pipeline: extract every submitted document,
//! aggregate the pairs in submission order, lay them out and compile them.
use crate::compile::generate_pdf;
use crate::errors::ExtractionError;
use crate::errors::GenerationError;
use crate::extract::extraction_error_ok;
use crate::extract::split_pages_from_input_pdfs;
use vstd::prelude::*;

verus! {

/// The first failure of a whole generation run.
#[derive(Debug)]
pub enum PipelineError {
    /// Validating or rasterizing a source document failed.
    Extraction(ExtractionError),
    /// Laying out or compiling the booklet failed.
    Generation(GenerationError),
}

/// Runs the whole pipeline over the submitted documents: extraction of every
/// document (fail-fast, submission order restored), layout, compilation. A
/// submission without documents yields no leaves and is reported as
/// `NoContent`.
pub fn generate_pdf_from_input_pdfs(input_pdfs: &[String], request_id: &str) -> (r: Result<
    Vec<u8>,
    PipelineError,
>)
    ensures
        input_pdfs@.len() == 0 ==> r == Err::<Vec<u8>, PipelineError>(
            PipelineError::Generation(GenerationError::NoContent),
        ),
        match r {
            Ok(_) => true,
            Err(PipelineError::Extraction(e)) => exists|j: int|
                0 <= j < input_pdfs@.len() && extraction_error_ok(e, input_pdfs@[j]@),
            Err(PipelineError::Generation(_)) => true,
        },
{
    let pairs = match split_pages_from_input_pdfs(input_pdfs, request_id) {
        Ok(p) => p,
        Err(e) => {
            return Err(PipelineError::Extraction(e));
        },
    };
    match generate_pdf(pairs.as_slice()) {
        Ok(bytes) => Ok(bytes),
        Err(e) => Err(PipelineError::Generation(e)),
    }
}

} // verus!
