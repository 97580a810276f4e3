use docx_lib::package::to_docx;
use docx_lib::builder::{alignment_from_lowercase, alignment_from_name, text_equals, AndroidDocBuilder};
use docx_lib::imaging::{choose_image_bytes, compress_image, needs_compression, needs_resize, prepare_image, CompressError};
use docx_lib::model::{Alignment, Block, DocRun, NumberingRef};

fn text_of(b: &Block) -> String {
    match b {
        Block::DocParagraph(p) => match &p.runs[0] {
            DocRun::Text(t) => t.text.clone(),
            DocRun::Image(_) => panic!("image run"),
        },
        Block::DocTable(_) => panic!("table"),
    }
}

fn alignment_after(name: &str) -> Option<Alignment> {
    let mut b = AndroidDocBuilder::new();
    assert!(b.add_paragraph_with_alignment("t", name));
    match &b.blocks()[0] {
        Block::DocParagraph(p) => p.alignment,
        Block::DocTable(_) => None,
    }
}

fn noisy_png(width: u32, height: u32) -> Vec<u8> {
    let mut seed: u32 = 12345;
    let img = image::RgbImage::from_fn(width, height, |_, _| {
        seed = seed.wrapping_mul(1103515245).wrapping_add(12345);
        let v = seed.to_be_bytes();
        image::Rgb([v[0], v[1], v[2]])
    });
    let mut out = std::io::Cursor::new(Vec::new());
    image::DynamicImage::ImageRgb8(img).write_to(&mut out, image::ImageFormat::Png).unwrap();
    out.into_inner()
}

#[test]
fn count_grows_by_one_per_append() {
    let mut b = AndroidDocBuilder::new();
    assert_eq!(b.element_count(), 0);
    assert!(b.add_text("a"));
    assert!(b.add_formatted_text("b", true, false, true, 12, "FF0000"));
    assert!(b.add_paragraph_with_alignment("c", "right"));
    assert!(b.add_bullet_item("d"));
    assert!(b.add_numbered_item("e"));
    assert!(b.add_table(1, 1));
    assert!(b.add_image(Some(vec![1, 2, 3]), 10, 10));
    assert_eq!(b.element_count(), 7);
    assert!(!b.add_image(None, 10, 10));
    assert_eq!(b.element_count(), 7);
}

#[test]
fn table_has_rows_times_cols_fresh_cells() {
    let mut b = AndroidDocBuilder::new();
    assert!(b.add_table(3, 4));
    assert!(b.add_table(0, 5));
    match &b.blocks()[0] {
        Block::DocTable(t) => {
            assert_eq!(t.rows.len(), 3);
            let mut cells = 0;
            for row in &t.rows {
                assert_eq!(row.len(), 4);
                for cell in row {
                    assert_eq!(cell.paragraphs.len(), 1);
                    assert!(cell.paragraphs[0].runs.is_empty());
                    cells += 1;
                }
            }
            assert_eq!(cells, 12);
        }
        Block::DocParagraph(_) => panic!("expected a table"),
    }
    match &b.blocks()[1] {
        Block::DocTable(t) => assert!(t.rows.is_empty()),
        Block::DocParagraph(_) => panic!("expected a table"),
    }
}

#[test]
fn alignment_is_matched_without_case() {
    assert_eq!(alignment_after("center"), Some(Alignment::Center));
    assert_eq!(alignment_after("Center"), Some(Alignment::Center));
    assert_eq!(alignment_after("CENTER"), Some(Alignment::Center));
    assert_eq!(alignment_after("Right"), Some(Alignment::Right));
    assert_eq!(alignment_after("JUSTIFY"), Some(Alignment::Justify));
    assert_eq!(alignment_after("middle"), Some(Alignment::Left));
    assert_eq!(alignment_after(""), Some(Alignment::Left));
    assert_eq!(alignment_from_name("RiGhT"), Alignment::Right);
    assert_eq!(alignment_from_lowercase("Center"), Alignment::Left);
    assert_eq!(alignment_from_lowercase("center"), Alignment::Center);
    assert!(text_equals("abc", "abc"));
    assert!(!text_equals("abc", "abd"));
}

#[test]
fn threshold_is_exclusive() {
    assert!(!needs_compression(500_000));
    assert!(needs_compression(500_001));
    let small = vec![7u8; 500_000];
    assert_eq!(prepare_image(small.clone(), 10, 10), small);
}

#[test]
fn fitting_images_are_not_resized() {
    assert!(!needs_resize(50, 40, 100, 100));
    assert!(!needs_resize(100, 100, 100, 100));
    assert!(needs_resize(101, 10, 100, 100));
    assert!(needs_resize(10, 101, 100, 100));
}

#[test]
fn corrupt_large_image_is_embedded_unchanged() {
    let corrupt = vec![0xABu8; 500_001];
    assert_eq!(compress_image(&corrupt, 100, 100), Err(CompressError::Decode));
    assert_eq!(choose_image_bytes(vec![1, 2], Err(CompressError::Encode)), vec![1, 2]);
    assert_eq!(choose_image_bytes(vec![1, 2], Ok(vec![9])), vec![9]);
    let mut b = AndroidDocBuilder::new();
    assert!(b.add_image(Some(corrupt.clone()), 100, 100));
    match &b.blocks()[0] {
        Block::DocParagraph(p) => match &p.runs[0] {
            DocRun::Image(img) => {
                assert_eq!(img.bytes, corrupt);
                assert_eq!((img.width, img.height), (100, 100));
            }
            DocRun::Text(_) => panic!("expected an image"),
        },
        Block::DocTable(_) => panic!("expected a paragraph"),
    }
}

#[test]
fn large_image_is_recompressed() {
    let png = noisy_png(600, 600);
    assert!(png.len() > 500_000);
    let out = prepare_image(png.clone(), 100, 100);
    assert_ne!(out, png);
    assert_eq!(&out[0..2], &[0xFF, 0xD8]);
    let decoded = image::load_from_memory(&out).unwrap();
    assert_eq!((decoded.width(), decoded.height()), (100, 100));
}

#[test]
fn small_image_is_not_upscaled() {
    let png = noisy_png(20, 10);
    let out = compress_image(&png, 100, 100).unwrap();
    let decoded = image::load_from_memory(&out).unwrap();
    assert_eq!((decoded.width(), decoded.height()), (20, 10));
}

#[test]
fn formatted_text_attributes() {
    let mut b = AndroidDocBuilder::new();
    assert!(b.add_formatted_text("x", true, true, true, 12, "00FF00"));
    assert!(b.add_formatted_text("y", false, false, false, 0, ""));
    match &b.blocks()[0] {
        Block::DocParagraph(p) => match &p.runs[0] {
            DocRun::Text(t) => {
                assert!(t.bold && t.italic && !t.underline);
                assert_eq!(t.size, Some(24));
                assert_eq!(t.color.as_deref(), Some("00FF00"));
            }
            DocRun::Image(_) => panic!("expected text"),
        },
        Block::DocTable(_) => panic!("expected a paragraph"),
    }
    match &b.blocks()[1] {
        Block::DocParagraph(p) => match &p.runs[0] {
            DocRun::Text(t) => {
                assert_eq!(t.size, None);
                assert_eq!(t.color, None);
            }
            DocRun::Image(_) => panic!("expected text"),
        },
        Block::DocTable(_) => panic!("expected a paragraph"),
    }
}

#[test]
fn end_to_end_text_table_bullet() {
    let mut b = AndroidDocBuilder::new();
    assert!(b.add_text("Hello"));
    assert!(b.add_table(2, 3));
    assert!(b.add_bullet_item("x"));
    assert_eq!(text_of(&b.blocks()[0]), "Hello");
    assert!(matches!(&b.blocks()[1], Block::DocTable(t) if t.rows.len() == 2 && t.rows[0].len() == 3));
    match &b.blocks()[2] {
        Block::DocParagraph(p) => assert_eq!(p.numbering, Some(NumberingRef { list_id: 1, level: 0 })),
        Block::DocTable(_) => panic!("expected a paragraph"),
    }
    assert_eq!(text_of(&b.blocks()[2]), "x");
    let bytes = b.generate_docx().expect("packaging succeeds");
    assert_eq!(&bytes[0..2], b"PK");
    let body = String::from_utf8_lossy(&bytes).to_string();
    assert!(body.contains("word/document.xml"));
    assert_eq!(b.element_count(), 0);
}

#[test]
fn appends_after_generate_start_fresh() {
    let mut b = AndroidDocBuilder::new();
    assert!(b.add_text("old"));
    assert!(b.generate_docx().is_some());
    assert!(b.add_text("new"));
    assert_eq!(b.element_count(), 1);
    assert_eq!(text_of(&b.blocks()[0]), "new");
}

#[test]
fn missing_image_leaves_document_unchanged() {
    let mut b = AndroidDocBuilder::new();
    assert!(b.add_text("a"));
    assert!(!b.add_image(None, 100, 100));
    assert_eq!(b.element_count(), 1);
}

#[test]
fn numbered_item_uses_second_list() {
    let mut b = AndroidDocBuilder::new();
    assert!(b.add_numbered_item("n"));
    match &b.blocks()[0] {
        Block::DocParagraph(p) => assert_eq!(p.numbering, Some(NumberingRef { list_id: 2, level: 0 })),
        Block::DocTable(_) => panic!("expected a paragraph"),
    }
}

#[test]
fn packaging_keeps_non_image_payload() {
    let mut b = AndroidDocBuilder::new();
    assert!(b.add_image(Some(vec![0u8; 600_000]), 100, 100));
    assert!(b.add_image(Some(vec![1, 2, 3, 4]), 50, 60));
    let bytes = b.generate_docx().expect("packaging succeeds");
    assert_eq!(&bytes[0..2], b"PK");
    assert_eq!(b.element_count(), 0);
}

#[test]
fn large_image_through_add_image_is_reencoded() {
    let png = noisy_png(600, 600);
    let mut b = AndroidDocBuilder::new();
    assert!(b.add_image(Some(png.clone()), 80, 80));
    match &b.blocks()[0] {
        Block::DocParagraph(p) => match &p.runs[0] {
            DocRun::Image(img) => {
                assert_ne!(img.bytes, png);
                assert_eq!(&img.bytes[0..2], &[0xFF, 0xD8]);
                assert_eq!((img.width, img.height), (80, 80));
            }
            DocRun::Text(_) => panic!("expected an image"),
        },
        Block::DocTable(_) => panic!("expected a paragraph"),
    }
    assert!(b.generate_docx().is_some());
}

#[test]
fn finish_packaging_settles_the_builder() {
    let mut b = AndroidDocBuilder::new();
    assert!(b.add_text("kept"));
    assert_eq!(b.finish_packaging(None), None);
    assert_eq!(b.element_count(), 1);
    assert_eq!(b.finish_packaging(Some(vec![5, 6])), Some(vec![5, 6]));
    assert_eq!(b.element_count(), 0);
}

#[test]
fn docx_body_follows_blocks() {
    let mut b = AndroidDocBuilder::new();
    assert!(b.add_text("a"));
    assert!(b.add_table(1, 2));
    let doc = to_docx(b.blocks());
    assert_eq!(doc.document.children.len(), 2);
    let empty = to_docx(&[]);
    assert!(empty.document.children.is_empty());
}
