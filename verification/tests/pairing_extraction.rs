use auto_bookmark::errors::ExtractionError;
use auto_bookmark::extract::PdfImageExtractor;
use auto_bookmark::extract::split_pages_from_input_pdfs;
use auto_bookmark::layout::RectoVersoImagePair;
use auto_bookmark::pairing::document_stem_string;
use auto_bookmark::pairing::flatten_document_pairs;
use auto_bookmark::pairing::output_directory;
use auto_bookmark::pairing::plan_document;
use auto_bookmark::request::GenerationRequest;

fn pair(recto: &str, verso: &str) -> RectoVersoImagePair {
    RectoVersoImagePair { recto_path: recto.to_string(), verso_path: verso.to_string() }
}

#[test]
fn odd_page_count_is_rejected() {
    let r = plan_document(3, "doc", "output/req");
    match r {
        Err(ExtractionError::OddPageCount(count)) => assert_eq!(count, 3),
        _ => panic!("expected OddPageCount"),
    }
}

#[test]
fn one_page_document_is_rejected() {
    let r = plan_document(1, "doc", "output/req");
    match r {
        Err(ExtractionError::OddPageCount(count)) => assert_eq!(count, 1),
        _ => panic!("expected OddPageCount"),
    }
}

#[test]
fn even_page_count_yields_one_pair_per_two_pages() {
    let plans = plan_document(8, "doc", "output/req").unwrap();
    assert_eq!(plans.len(), 4);
    for (idx, plan) in plans.iter().enumerate() {
        assert_eq!(plan.pair_index, idx);
        assert_eq!(plan.recto_page, 2 * idx + 1);
        assert_eq!(plan.verso_page, 2 * idx + 2);
    }
    assert_eq!(plans[0].recto_path, "output/req/doc_page001_recto.png");
    assert_eq!(plans[0].verso_path, "output/req/doc_page002_verso.png");
    assert_eq!(plans[3].recto_path, "output/req/doc_page007_recto.png");
    assert_eq!(plans[3].verso_path, "output/req/doc_page008_verso.png");
}

#[test]
fn page_numbers_are_padded_to_three_digits() {
    let plans = plan_document(20, "doc", "d").unwrap();
    assert_eq!(plans[4].recto_path, "d/doc_page009_recto.png");
    assert_eq!(plans[4].verso_path, "d/doc_page010_verso.png");
    assert_eq!(plans[9].recto_path, "d/doc_page019_recto.png");
    assert_eq!(plans[9].verso_path, "d/doc_page020_verso.png");
}

#[test]
fn zero_page_document_yields_no_pairs() {
    let plans = plan_document(0, "doc", "output/req").unwrap();
    assert_eq!(plans.len(), 0);
}

#[test]
fn document_stem_drops_directory_and_extension() {
    assert_eq!(document_stem_string("uploads/1712_dragon.pdf"), "1712_dragon");
    assert_eq!(document_stem_string("dragon.pdf"), "dragon");
    assert_eq!(document_stem_string("a/b/c/file.tar.gz"), "file.tar");
    assert_eq!(document_stem_string("noext"), "noext");
    assert_eq!(document_stem_string("uploads/.hidden"), ".hidden");
    assert_eq!(document_stem_string("uploads/"), "document");
}

#[test]
fn output_directory_is_request_scoped() {
    assert_eq!(output_directory("42aa"), "output/42aa");
    let extractor = PdfImageExtractor::new("42aa".to_string());
    assert_eq!(extractor.get_output_directory(), "output/42aa");
}

#[test]
fn aggregation_keeps_submission_order() {
    let doc_a = vec![pair("a0r", "a0v"), pair("a1r", "a1v")];
    let doc_b = vec![pair("b0r", "b0v")];
    let flat = flatten_document_pairs(vec![doc_a, doc_b]);
    let paths: Vec<&str> = flat.iter().map(|p| p.recto_path.as_str()).collect();
    assert_eq!(paths, vec!["a0r", "a1r", "b0r"]);
    let verso_paths: Vec<&str> = flat.iter().map(|p| p.verso_path.as_str()).collect();
    assert_eq!(verso_paths, vec!["a0v", "a1v", "b0v"]);
}

#[test]
fn aggregation_of_empty_submission_is_empty() {
    let flat = flatten_document_pairs(Vec::new());
    assert_eq!(flat.len(), 0);
}

#[test]
fn missing_document_fails_extraction_with_its_path() {
    let extractor = PdfImageExtractor::new("req1".to_string());
    let r = extractor.extract_recto_verso_pairs("no/such/file.pdf");
    match r {
        Err(ExtractionError::InvalidPdfPath(path)) => assert_eq!(path, "no/such/file.pdf"),
        _ => panic!("expected InvalidPdfPath"),
    }
}

#[test]
fn coordinator_fails_fast_on_missing_document() {
    let inputs = vec!["also/missing.pdf".to_string()];
    let r = split_pages_from_input_pdfs(&inputs, "req2");
    match r {
        Err(ExtractionError::InvalidPdfPath(path)) => assert_eq!(path, "also/missing.pdf"),
        _ => panic!("expected InvalidPdfPath"),
    }
}

#[test]
fn coordinator_with_no_documents_yields_no_pairs() {
    let inputs: Vec<String> = Vec::new();
    let pairs = split_pages_from_input_pdfs(&inputs, "req3").unwrap();
    assert_eq!(pairs.len(), 0);
}

#[test]
fn extraction_error_messages_are_exact() {
    assert_eq!(
        ExtractionError::InvalidPdfPath("x.pdf".to_string()).message(),
        "Invalid PDF path: x.pdf"
    );
    assert_eq!(
        ExtractionError::OddPageCount(3).message(),
        "PDF has odd number of pages (3). Expected even number for recto-verso pairs."
    );
    assert_eq!(ExtractionError::IoError("denied".to_string()).message(), "IO Error: denied");
    assert_eq!(
        ExtractionError::ExtractionFailed("render".to_string()).message(),
        "Extraction failed: render"
    );
    assert_eq!(ExtractionError::InvalidPageNumber(12).message(), "Invalid page number: 12");
}

#[test]
fn request_collects_files_in_upload_order() {
    let mut request = GenerationRequest::new("idq".to_string());
    assert_eq!(request.input_files().len(), 0);
    request.add_file("uploads/a.pdf".to_string());
    request.add_file("uploads/b.pdf".to_string());
    assert_eq!(request.input_files(), &vec![
        "uploads/a.pdf".to_string(),
        "uploads/b.pdf".to_string()
    ]);
}

#[test]
fn cleanup_lists_every_source_and_every_raster() {
    let mut request = GenerationRequest::new("idc".to_string());
    request.add_file("uploads/a.pdf".to_string());
    request.add_file("uploads/b.pdf".to_string());
    let pairs = vec![pair("out/r1.png", "out/v1.png"), pair("out/r2.png", "out/v2.png")];
    let cleanup = request.cleanup_paths(&pairs);
    assert_eq!(cleanup, vec![
        "uploads/a.pdf".to_string(),
        "uploads/b.pdf".to_string(),
        "out/r1.png".to_string(),
        "out/v1.png".to_string(),
        "out/r2.png".to_string(),
        "out/v2.png".to_string()
    ]);
}

#[test]
fn cleanup_without_pairs_still_lists_sources() {
    let mut request = GenerationRequest::new("idd".to_string());
    request.add_file("uploads/only.pdf".to_string());
    let cleanup = request.cleanup_paths(&Vec::new());
    assert_eq!(cleanup, vec!["uploads/only.pdf".to_string()]);
}
