use auto_bookmark::compile::generate_pdf;
use auto_bookmark::compile::generate_pdf_with_config;
use auto_bookmark::errors::ExtractionError;
use auto_bookmark::errors::GenerationError;
use auto_bookmark::layout::GridConfig;
use auto_bookmark::layout::PageMargins;
use auto_bookmark::layout::RectoVersoImagePair;
use auto_bookmark::pipeline::PipelineError;
use auto_bookmark::pipeline::generate_pdf_from_input_pdfs;

fn pair(recto: &str, verso: &str) -> RectoVersoImagePair {
    RectoVersoImagePair { recto_path: recto.to_string(), verso_path: verso.to_string() }
}

#[test]
fn empty_pair_sequence_reports_no_content() {
    let images: Vec<RectoVersoImagePair> = Vec::new();
    assert!(matches!(generate_pdf(&images), Err(GenerationError::NoContent)));
    let margins = PageMargins::default();
    let config = GridConfig::default();
    assert!(matches!(
        generate_pdf_with_config(&images, &margins, &config),
        Err(GenerationError::NoContent)
    ));
}

#[test]
fn missing_image_files_surface_as_compilation_error() {
    let images = vec![pair("no/such/recto.png", "no/such/verso.png")];
    match generate_pdf(&images) {
        Err(GenerationError::CompilationError(messages)) => {
            assert!(!messages.is_empty());
        }
        Err(GenerationError::NoContent) => panic!("nonempty input reported as NoContent"),
        other => panic!("expected CompilationError, got {:?}", other.map(|b| b.len())),
    }
}

#[test]
fn empty_submission_reports_no_content() {
    let inputs: Vec<String> = Vec::new();
    let r = generate_pdf_from_input_pdfs(&inputs, "reqp");
    assert!(matches!(r, Err(PipelineError::Generation(GenerationError::NoContent))));
}

#[test]
fn missing_document_stops_the_pipeline_before_compilation() {
    let inputs = vec!["missing/doc.pdf".to_string()];
    let r = generate_pdf_from_input_pdfs(&inputs, "reqq");
    match r {
        Err(PipelineError::Extraction(ExtractionError::InvalidPdfPath(path))) => {
            assert_eq!(path, "missing/doc.pdf");
        }
        _ => panic!("expected InvalidPdfPath"),
    }
}
