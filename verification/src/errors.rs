//! Terminal errors of the pipeline: what page extraction can reject, and what
//! the compile stage can report. Messages are rendered by `message`, whose
//! contract pins the exact text.
use crate::numerals::dec_str;
use crate::numerals::usize_to_string;
use vstd::prelude::*;
use vstd::string::*;

verus! {

/// Why extracting recto/verso pairs from a source document failed.
#[derive(Debug, Clone)]
pub enum ExtractionError {
    /// The source path does not point at a readable document.
    InvalidPdfPath(String),
    /// The document has an odd number of pages and cannot form full leaves.
    OddPageCount(usize),
    /// A filesystem operation around extraction failed.
    IoError(String),
    /// The document reader or the page renderer reported a failure.
    ExtractionFailed(String),
    /// A page number outside the document was requested.
    InvalidPageNumber(usize),
}

/// The exact text that `ExtractionError::message` renders.
pub open spec fn extraction_error_text(e: ExtractionError) -> Seq<char> {
    match e {
        ExtractionError::InvalidPdfPath(path) => "Invalid PDF path: "@ + path@,
        ExtractionError::OddPageCount(count) => "PDF has odd number of pages ("@ + dec_str(
            count as nat,
        ) + "). Expected even number for recto-verso pairs."@,
        ExtractionError::IoError(detail) => "IO Error: "@ + detail@,
        ExtractionError::ExtractionFailed(detail) => "Extraction failed: "@ + detail@,
        ExtractionError::InvalidPageNumber(page) => "Invalid page number: "@ + dec_str(
            page as nat,
        ),
    }
}

impl ExtractionError {
    /// One-line description of the failure.
    pub fn message(&self) -> (r: String)
        ensures
            r@ == extraction_error_text(*self),
    {
        match self {
            ExtractionError::InvalidPdfPath(path) => {
                let mut r = "Invalid PDF path: ".to_owned();
                r.append(path.as_str());
                r
            },
            ExtractionError::OddPageCount(count) => {
                let mut r = "PDF has odd number of pages (".to_owned();
                r.append(usize_to_string(*count).as_str());
                r.append("). Expected even number for recto-verso pairs.");
                r
            },
            ExtractionError::IoError(detail) => {
                let mut r = "IO Error: ".to_owned();
                r.append(detail.as_str());
                r
            },
            ExtractionError::ExtractionFailed(detail) => {
                let mut r = "Extraction failed: ".to_owned();
                r.append(detail.as_str());
                r
            },
            ExtractionError::InvalidPageNumber(page) => {
                let mut r = "Invalid page number: ".to_owned();
                r.append(usize_to_string(*page).as_str());
                r
            },
        }
    }
}

/// Why turning an extracted pair sequence into the final PDF failed.
#[derive(Debug, Clone)]
pub enum GenerationError {
    /// There were no pairs to lay out, so no document was compiled.
    NoContent,
    /// The typesetting engine rejected the markup; one message per diagnostic.
    CompilationError(Vec<String>),
    /// Typesetting succeeded but PDF serialization failed.
    ExportError(Vec<String>),
}

} // verus!
