use auto_bookmark::layout::GridConfig;
use auto_bookmark::layout::PageMargins;
use auto_bookmark::layout::RectoVersoImagePair;
use auto_bookmark::layout::generate_typst_content;
use auto_bookmark::numerals::padded3_string;
use auto_bookmark::numerals::tenths_string;
use auto_bookmark::numerals::usize_to_string;

fn pair(recto: &str, verso: &str) -> RectoVersoImagePair {
    RectoVersoImagePair { recto_path: recto.to_string(), verso_path: verso.to_string() }
}

#[test]
fn test_generated_content_should_be_correct() {
    let images = vec![
        pair("recto/devils4.png", "verso/devils4.png"),
        pair("recto/uglylove.png", "verso/uglylove.png"),
        pair("recto/yoyo.png", "verso/yoyo.png"),
        pair("recto/dragon.png", "verso/dragon.png"),
    ];
    const EXPECTED: &str = r#"#set page(margin: (
 top: 0cm,
 bottom: 0cm,
 left: 2cm,
 right: 2cm
))

#grid(
  columns: (auto, auto, auto),
  rows: (auto, auto),
  column-gutter: 3cm,
  row-gutter: 0.7cm,
  align: center,


image("recto/devils4.png", width: 5.5cm),
image("recto/uglylove.png", width: 5.5cm),
image("recto/yoyo.png", width: 5.5cm),
grid.cell(rotate(75deg, image("recto/dragon.png", width: 5.5cm), reflow: true), colspan: 3),

)
#grid(
  columns: (auto, auto, auto),
  rows: (auto, auto),
  column-gutter: 3cm,
  row-gutter: 0.7cm,
  align: center,


image("verso/yoyo.png", width: 5.5cm),
image("verso/uglylove.png", width: 5.5cm),
image("verso/devils4.png", width: 5.5cm),
grid.cell(rotate(-75deg, image("verso/dragon.png", width: 5.5cm), reflow: true), colspan: 3),

)
"#;

    let margins = PageMargins::default();
    let config = GridConfig::default();

    let content = generate_typst_content(&images, &margins, &config);

    println!("Generated Typst content:\n{}", content);

    assert_eq!(content, EXPECTED);
}

#[test]
fn composer_is_deterministic_across_calls() {
    let images = vec![
        pair("r/a.png", "v/a.png"),
        pair("r/b.png", "v/b.png"),
        pair("r/c.png", "v/c.png"),
        pair("r/d.png", "v/d.png"),
        pair("r/e.png", "v/e.png"),
    ];
    let margins = PageMargins::default();
    let config = GridConfig::default();
    let first = generate_typst_content(&images, &margins, &config);
    let second = generate_typst_content(&images, &margins, &config);
    assert_eq!(first, second);
    assert_eq!(first.as_bytes(), second.as_bytes());
}

#[test]
fn empty_sequence_gives_margins_and_placeholder_only() {
    let images: Vec<RectoVersoImagePair> = Vec::new();
    let margins = PageMargins::default();
    let config = GridConfig::default();
    let content = generate_typst_content(&images, &margins, &config);
    const EXPECTED: &str = r#"#set page(margin: (
 top: 0cm,
 bottom: 0cm,
 left: 2cm,
 right: 2cm
))

No images to display.
"#;
    assert_eq!(content, EXPECTED);
}

#[test]
fn chunk_of_two_mirrors_verso_and_has_no_rotated_cell() {
    let images = vec![pair("r/p0.png", "v/p0.png"), pair("r/p1.png", "v/p1.png")];
    let margins = PageMargins::default();
    let config = GridConfig::default();
    let content = generate_typst_content(&images, &margins, &config);
    const EXPECTED: &str = r#"#set page(margin: (
 top: 0cm,
 bottom: 0cm,
 left: 2cm,
 right: 2cm
))

#grid(
  columns: (auto, auto, auto),
  rows: (auto, auto),
  column-gutter: 3cm,
  row-gutter: 0.7cm,
  align: center,


image("r/p0.png", width: 5.5cm),
image("r/p1.png", width: 5.5cm),

)
#grid(
  columns: (auto, auto, auto),
  rows: (auto, auto),
  column-gutter: 3cm,
  row-gutter: 0.7cm,
  align: center,


image("v/p1.png", width: 5.5cm),
image("v/p0.png", width: 5.5cm),

)
"#;
    assert_eq!(content, EXPECTED);
    assert!(!content.contains("rotate"));
}

#[test]
fn five_pairs_make_two_chunks() {
    let images = vec![
        pair("r/a.png", "v/a.png"),
        pair("r/b.png", "v/b.png"),
        pair("r/c.png", "v/c.png"),
        pair("r/d.png", "v/d.png"),
        pair("r/e.png", "v/e.png"),
    ];
    let margins = PageMargins::default();
    let config = GridConfig::default();
    let content = generate_typst_content(&images, &margins, &config);
    assert_eq!(content.matches("#grid(").count(), 4);
    assert_eq!(content.matches("rotate(75deg").count(), 1);
    assert_eq!(content.matches("rotate(-75deg").count(), 1);
    let lone_recto = content.rfind("image(\"r/e.png\"").unwrap();
    let lone_verso = content.rfind("image(\"v/e.png\"").unwrap();
    assert!(lone_recto < lone_verso);
}

#[test]
fn default_profiles_match_the_fixed_values() {
    let margins = PageMargins::default();
    assert_eq!(margins.top, 0);
    assert_eq!(margins.bottom, 0);
    assert_eq!(margins.left, 20);
    assert_eq!(margins.right, 20);
    let config = GridConfig::default();
    assert_eq!(config.column_gutter, 30);
    assert_eq!(config.row_gutter, 7);
    assert_eq!(config.image_width, 55);
    assert_eq!(config.rotation_angle, 750);
}

#[test]
fn numerals_render_exactly() {
    assert_eq!(usize_to_string(0), "0");
    assert_eq!(usize_to_string(7), "7");
    assert_eq!(usize_to_string(9081), "9081");
    assert_eq!(padded3_string(7), "007");
    assert_eq!(padded3_string(42), "042");
    assert_eq!(padded3_string(123), "123");
    assert_eq!(padded3_string(6000), "6000");
    assert_eq!(tenths_string(0), "0");
    assert_eq!(tenths_string(7), "0.7");
    assert_eq!(tenths_string(30), "3");
    assert_eq!(tenths_string(55), "5.5");
    assert_eq!(tenths_string(750), "75");
}
