//! Extraction of recto/verso pairs from source documents. The page count and
//! the rendering of single pages come from the pdfium library behind trusted
//! wrappers; everything decided from those results — validation, pairing,
//! naming, ordering — is verified against `plan_document`.
use crate::errors::ExtractionError;
use crate::layout::RectoVersoImagePair;
use crate::pairing::document_stem;
use crate::pairing::document_stem_string;
use crate::pairing::joined;
use crate::pairing::output_directory;
use crate::pairing::output_directory_path;
use crate::pairing::plan_document;
use crate::pairing::plan_entry_ok;
use crate::pairing::recto_file_name;
use crate::pairing::verso_file_name;
use pdfium_render::prelude::PdfRenderConfig;
use pdfium_render::prelude::Pdfium;
use pdfium_render::prelude::PdfiumError;
use vstd::prelude::*;

verus! {

/// How rendering one page to a file can fail.
enum PageRenderError {
    /// The requested 0-based page index is outside the document.
    BadPageIndex,
    /// The reader, the renderer or the image encoder failed.
    Failed(String),
}

/// Relies on `std::path::Path::exists`: whether `path` points at an existing
/// filesystem entity. The answer depends on the disk, so nothing more is
/// promised of it.
#[verifier::external_body]
fn path_exists(path: &str) -> bool {
    std::path::Path::new(path).exists()
}

/// The pdfium handle type of `pdfium_render`, opaque to the library's logic:
/// a value of it is only obtained from `bind_pdfium` and carried through.
#[verifier::external_type_specification]
#[verifier::external_body]
pub struct ExPdfium(Pdfium);

/// Relies on `pdfium_render`'s binding functions: loads the pdfium library
/// from the working directory, falling back to the system, on the first call;
/// later calls reuse the bindings the process already holds.
#[verifier::external_body]
fn bind_pdfium() -> (r: Result<Pdfium, String>) {
    match Pdfium::bind_to_library(Pdfium::pdfium_platform_library_name_at_path("./"))
        .or_else(|_| Pdfium::bind_to_system_library())
    {
        Ok(bindings) => Ok(Pdfium::new(bindings)),
        Err(PdfiumError::PdfiumLibraryBindingsAlreadyInitialized) => Ok(Pdfium::default()),
        Err(e) => Err(format!("Failed to bind to Pdfium library: {:?}", e)),
    }
}

/// Relies on pdfium (through `pdfium_render`): loads the document at `path`
/// and reads its page count. `PdfPages::len` returns a non-negative `i32`,
/// so an `Ok` count is at most `i32::MAX`.
#[verifier::external_body]
fn pdf_page_count(pdfium: &Pdfium, path: &str) -> (r: Result<usize, String>)
    ensures
        r matches Ok(c) ==> c <= 0x7FFFFFFF,
{
    let document = pdfium.load_pdf_from_file(path, None)
        .map_err(|e| format!("Failed to load PDF: {:?}", e))?;
    usize::try_from(document.pages().len()).map_err(|_| "Negative page count".to_string())
}

/// Relies on pdfium (through `pdfium_render`) and on the image encoder it
/// re-exports: renders page `page_index` (0-based) of the document at
/// `pdf_path` at the fixed profile — 2550 pixels wide (8.5 inches at 300
/// DPI), at most 3300 pixels tall (11 inches at 300 DPI), aspect preserved —
/// and writes the image to `out_path`. The outcome depends on the disk, so
/// nothing more is promised of it.
#[verifier::external_body]
fn render_page_to_file(pdfium: &Pdfium, pdf_path: &str, page_index: i32, out_path: &str) -> (r:
    Result<(), PageRenderError>)
    requires
        page_index >= 0,
{
    let document = pdfium.load_pdf_from_file(pdf_path, None)
        .map_err(|e| PageRenderError::Failed(format!("load: {:?}", e)))?;
    let page = document.pages().get(page_index).map_err(|_| PageRenderError::BadPageIndex)?;
    let config = PdfRenderConfig::new().set_target_width(2550).set_maximum_height(3300);
    let bitmap = page.render_with_config(&config)
        .map_err(|e| PageRenderError::Failed(format!("render: {:?}", e)))?;
    let image = bitmap.as_image().map_err(|e| PageRenderError::Failed(format!("bitmap: {:?}", e)))?;
    image.save(out_path).map_err(|e| PageRenderError::Failed(format!("save: {:?}", e)))
}

/// The errors a failed page render is reported as.
pub open spec fn render_error_ok(e: ExtractionError, page_number: usize) -> bool {
    match e {
        ExtractionError::InvalidPageNumber(p) => p == page_number,
        ExtractionError::ExtractionFailed(_) => true,
        _ => false,
    }
}

/// Renders one 1-based page of a document to `output_path`.
fn extract_page_as_image(pdfium: &Pdfium, pdf_path: &str, page_number: usize, output_path: &str) -> (r: Result<
    (),
    ExtractionError,
>)
    requires
        1 <= page_number <= 0x7FFFFFFF,
    ensures
        r matches Err(e) ==> render_error_ok(e, page_number),
{
    let page_index: i32 = (page_number - 1) as i32;
    match render_page_to_file(pdfium, pdf_path, page_index, output_path) {
        Ok(_) => Ok(()),
        Err(PageRenderError::BadPageIndex) => Err(
            ExtractionError::InvalidPageNumber(page_number),
        ),
        Err(PageRenderError::Failed(detail)) => Err(ExtractionError::ExtractionFailed(detail)),
    }
}

/// The errors a failed pair extraction is reported as.
pub open spec fn pair_error_ok(e: ExtractionError, recto_page: usize, verso_page: usize) -> bool {
    match e {
        ExtractionError::InvalidPageNumber(p) => p == recto_page || p == verso_page,
        ExtractionError::ExtractionFailed(_) => true,
        _ => false,
    }
}

/// Renders both pages of one planned leaf and returns the pair of image
/// paths the booklet layout will reference.
fn extract_pair(pdfium: &Pdfium, pdf_path: &str, plan: &crate::pairing::PagePairPlan) -> (r: Result<
    RectoVersoImagePair,
    ExtractionError,
>)
    requires
        1 <= plan.recto_page <= 0x7FFFFFFF,
        1 <= plan.verso_page <= 0x7FFFFFFF,
    ensures
        match r {
            Ok(pair) => pair.recto_path@ == plan.recto_path@ && pair.verso_path@
                == plan.verso_path@,
            Err(e) => pair_error_ok(e, plan.recto_page, plan.verso_page),
        },
{
    match extract_page_as_image(pdfium, pdf_path, plan.recto_page, plan.recto_path.as_str()) {
        Ok(_) => (),
        Err(e) => {
            return Err(e);
        },
    }
    match extract_page_as_image(pdfium, pdf_path, plan.verso_page, plan.verso_path.as_str()) {
        Ok(_) => (),
        Err(e) => {
            return Err(e);
        },
    }
    Ok(
        RectoVersoImagePair {
            recto_path: plan.recto_path.clone(),
            verso_path: plan.verso_path.clone(),
        },
    )
}

/// The pairs of one document follow its plan: the pair at position `k` holds
/// the images of pages `2k + 1` (recto) and `2k + 2` (verso), named after the
/// document's stem, inside the request directory.
pub open spec fn pairs_follow_plan(
    pairs: Seq<RectoVersoImagePair>,
    stem: Seq<char>,
    dir: Seq<char>,
) -> bool {
    forall|k: int|
        0 <= k < pairs.len() ==> {
            &&& (#[trigger] pairs[k]).recto_path@ == joined(
                dir,
                recto_file_name(stem, (2 * k + 1) as nat),
            )
            &&& pairs[k].verso_path@ == joined(dir, verso_file_name(stem, (2 * k + 2) as nat))
        }
}

/// The errors extraction of one document at `path` is reported with.
pub open spec fn extraction_error_ok(e: ExtractionError, path: Seq<char>) -> bool {
    match e {
        ExtractionError::InvalidPdfPath(p) => p@ == path,
        ExtractionError::OddPageCount(c) => c % 2 == 1 && c <= 0x7FFFFFFF,
        ExtractionError::ExtractionFailed(_) => true,
        ExtractionError::InvalidPageNumber(p) => p >= 1,
        ExtractionError::IoError(_) => false,
    }
}

/// Extracts the recto/verso pairs of single documents into one
/// request-scoped directory.
pub struct PdfImageExtractor {
    request_id: String,
}

impl PdfImageExtractor {
    /// The identifier of the request this extractor works for.
    pub closed spec fn id(&self) -> Seq<char> {
        self.request_id@
    }

    /// An extractor writing under the directory of request `request_id`.
    pub fn new(request_id: String) -> (r: Self)
        ensures
            r.id() == request_id@,
    {
        Self { request_id }
    }

    /// The directory this extractor writes all images under.
    pub fn get_output_directory(&self) -> (r: String)
        ensures
            r@ == output_directory_path(self.id()),
    {
        output_directory(self.request_id.as_str())
    }

    /// Validates one document and renders all of its leaves, in ascending
    /// pair order: a document that does not exist is rejected as an invalid
    /// path, an odd page count is rejected outright, and an `Ok` result
    /// holds one pair per two pages, each following the document's plan.
    pub fn extract_recto_verso_pairs(&self, pdf_path: &str) -> (r: Result<
        Vec<RectoVersoImagePair>,
        ExtractionError,
    >)
        ensures
            match r {
                Ok(pairs) => pairs_follow_plan(
                    pairs@,
                    document_stem(pdf_path@),
                    output_directory_path(self.id()),
                ),
                Err(e) => extraction_error_ok(e, pdf_path@),
            },
    {
        if !path_exists(pdf_path) {
            return Err(ExtractionError::InvalidPdfPath(pdf_path.to_owned()));
        }
        let pdfium = match bind_pdfium() {
            Ok(p) => p,
            Err(detail) => {
                return Err(ExtractionError::ExtractionFailed(detail));
            },
        };
        let page_count = match pdf_page_count(&pdfium, pdf_path) {
            Ok(c) => c,
            Err(detail) => {
                return Err(ExtractionError::ExtractionFailed(detail));
            },
        };
        let stem = document_stem_string(pdf_path);
        let dir = self.get_output_directory();
        let plans = match plan_document(page_count, stem.as_str(), dir.as_str()) {
            Ok(p) => p,
            Err(e) => {
                return Err(e);
            },
        };
        let mut pairs: Vec<RectoVersoImagePair> = Vec::new();
        let mut i: usize = 0;
        while i < plans.len()
            invariant
                page_count <= 0x7FFFFFFF,
                plans@.len() == page_count / 2,
                forall|k: int|
                    0 <= k < plans@.len() ==> plan_entry_ok(#[trigger] plans@[k], k, stem@, dir@),
                stem@ == document_stem(pdf_path@),
                dir@ == output_directory_path(self.id()),
                i <= plans@.len(),
                pairs@.len() == i,
                pairs_follow_plan(pairs@, stem@, dir@),
            decreases plans@.len() - i,
        {
            let pair = match extract_pair(&pdfium, pdf_path, &plans[i]) {
                Ok(p) => p,
                Err(e) => {
                    return Err(e);
                },
            };
            pairs.push(pair);
            i = i + 1;
        }
        Ok(pairs)
    }
}

/// Every image path of the pairs lies inside the request's directory.
pub open spec fn pairs_in_directory(pairs: Seq<RectoVersoImagePair>, dir: Seq<char>) -> bool {
    forall|k: int|
        0 <= k < pairs.len() ==> {
            &&& is_prefix(dir + "/"@, (#[trigger] pairs[k]).recto_path@)
            &&& is_prefix(dir + "/"@, pairs[k].verso_path@)
        }
}

/// `p` is an initial segment of `s`.
pub open spec fn is_prefix(p: Seq<char>, s: Seq<char>) -> bool {
    p.len() <= s.len() && s.subrange(0, p.len() as int) == p
}

/// The aggregated pairs partition by submitted document: one pair segment
/// per document, each following its own document's plan, concatenated in
/// submission order.
pub open spec fn pairs_partitioned(
    pairs: Seq<RectoVersoImagePair>,
    input_pdfs: Seq<String>,
    dir: Seq<char>,
) -> bool {
    exists|per_doc: Seq<Seq<RectoVersoImagePair>>|
        #![trigger crate::pairing::concat_pairs(per_doc, 0)]
        {
            &&& per_doc.len() == input_pdfs.len()
            &&& (forall|d: int|
                0 <= d < per_doc.len() ==> pairs_follow_plan(
                    #[trigger] per_doc[d],
                    document_stem(input_pdfs[d]@),
                    dir,
                ))
            &&& pairs == crate::pairing::concat_pairs(per_doc, 0)
        }
}

/// Extracts every submitted document and aggregates the pairs back into
/// submission order: all pairs of the first document, in ascending pair
/// order, then all pairs of the second, and so on. The first failing
/// document aborts the whole call; no partial pair list is returned.
pub fn split_pages_from_input_pdfs(input_pdfs: &[String], request_id: &str) -> (r: Result<
    Vec<RectoVersoImagePair>,
    ExtractionError,
>)
    ensures
        match r {
            Ok(pairs) => pairs_in_directory(pairs@, output_directory_path(request_id@))
                && pairs_partitioned(pairs@, input_pdfs@, output_directory_path(request_id@)),
            Err(e) => exists|j: int|
                0 <= j < input_pdfs@.len() && extraction_error_ok(e, input_pdfs@[j]@),
        },
        input_pdfs@.len() == 0 ==> (r matches Ok(pairs) && pairs@.len() == 0),
{
    let extractor = PdfImageExtractor::new(request_id.to_owned());
    let ghost dir = output_directory_path(request_id@);
    let mut per_document: Vec<Vec<RectoVersoImagePair>> = Vec::new();
    let mut i: usize = 0;
    while i < input_pdfs.len()
        invariant
            extractor.id() == request_id@,
            dir == output_directory_path(request_id@),
            i <= input_pdfs@.len(),
            forall|d: int|
                0 <= d < per_document@.len() ==> pairs_in_directory(
                    (#[trigger] per_document@[d])@,
                    dir,
                ),
            forall|d: int|
                0 <= d < per_document@.len() ==> pairs_follow_plan(
                    (#[trigger] per_document@[d])@,
                    document_stem(input_pdfs@[d]@),
                    dir,
                ),
            per_document@.len() == i,
        decreases input_pdfs@.len() - i,
    {
        let doc_pairs = match extractor.extract_recto_verso_pairs(input_pdfs[i].as_str()) {
            Ok(p) => p,
            Err(e) => {
                proof {
                    assert(extraction_error_ok(e, input_pdfs@[i as int]@));
                }
                return Err(e);
            },
        };
        proof {
            let stem = document_stem(input_pdfs@[i as int]@);
            assert forall|k: int| 0 <= k < doc_pairs@.len() implies {
                &&& is_prefix(dir + "/"@, (#[trigger] doc_pairs@[k]).recto_path@)
                &&& is_prefix(dir + "/"@, doc_pairs@[k].verso_path@)
            } by {
                assert(doc_pairs@[k].recto_path@ == joined(
                    dir,
                    recto_file_name(stem, (2 * k + 1) as nat),
                ));
                assert((dir + "/"@).len() <= doc_pairs@[k].recto_path@.len());
                assert(doc_pairs@[k].recto_path@.subrange(0, (dir + "/"@).len() as int) =~= dir
                    + "/"@);
                assert((dir + "/"@).len() <= doc_pairs@[k].verso_path@.len());
                assert(doc_pairs@[k].verso_path@.subrange(0, (dir + "/"@).len() as int) =~= dir
                    + "/"@);
            }
        }
        per_document.push(doc_pairs);
        i = i + 1;
    }
    let pairs = crate::pairing::flatten_document_pairs(per_document);
    proof {
        let views = crate::pairing::doc_views(per_document@);
        assert forall|d: int| 0 <= d < views.len() implies pairs_in_directory(
            #[trigger] views[d],
            dir,
        ) && pairs_follow_plan(views[d], document_stem(input_pdfs@[d]@), dir) by {
            assert(views[d] == per_document@[d]@);
        }
        lemma_concat_in_directory(views, 0, dir);
        assert(pairs@ == crate::pairing::concat_pairs(views, 0));
        assert(pairs_partitioned(pairs@, input_pdfs@, dir));
    }
    Ok(pairs)
}

proof fn lemma_concat_in_directory(docs: Seq<Seq<RectoVersoImagePair>>, i: int, dir: Seq<char>)
    requires
        forall|d: int| 0 <= d < docs.len() ==> pairs_in_directory(#[trigger] docs[d], dir),
    ensures
        pairs_in_directory(crate::pairing::concat_pairs(docs, i), dir),
    decreases docs.len() - i,
{
    if 0 <= i < docs.len() {
        lemma_concat_in_directory(docs, i + 1, dir);
        let rest = crate::pairing::concat_pairs(docs, i + 1);
        let whole = crate::pairing::concat_pairs(docs, i);
        assert forall|k: int| 0 <= k < whole.len() implies {
            &&& is_prefix(dir + "/"@, (#[trigger] whole[k]).recto_path@)
            &&& is_prefix(dir + "/"@, whole[k].verso_path@)
        } by {
            if k < docs[i].len() {
                assert(whole[k] == docs[i][k]);
            } else {
                assert(whole[k] == rest[k - docs[i].len()]);
            }
        }
    }
}

} // verus!
