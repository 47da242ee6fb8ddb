//! End-to-end cursor behaviour over a small in-memory document.

use pdf_vtab::annotations::PdfAnnotationsCursor;
use pdf_vtab::images::PdfImagesCursor;
use pdf_vtab::model::{Annotation, AnnotationKind, Bitmap, Bounds, Document, ImageObject, Page,
    PageObject};
use pdf_vtab::render::encode_payload_png;
use pdf_vtab::pages::PdfPagesCursor;
use pdf_vtab::registry::{page_tag, PageHandle, SessionArena};
use pdf_vtab::value::{ColumnOutput, TableError, Value};

fn blank_page(width: i64, height: i64) -> Page {
    Page { width, height, label: None, objects: Vec::new(), annotations: Vec::new() }
}

fn sample_image() -> ImageObject {
    ImageObject { bounds: Bounds { left: 10_000, top: 20_000, width: 30_000, height: 40_000 } }
}

/// The pixels the rendering library would hand back for the sample
/// object when a payload read asks for them.
fn sample_render() -> Bitmap {
    Bitmap { width: 2, height: 1, rgba: vec![255, 0, 0, 255, 0, 0, 255, 255] }
}

fn text_annotation() -> Annotation {
    Annotation {
        kind: AnnotationKind::Text,
        bounds: Some(Bounds { left: 1_000, top: 2_000, width: 3_000, height: 4_000 }),
        name: Some("note".to_string()),
        contents: Some("hello".to_string()),
        creator: None,
        created_at: None,
        modified_at: None,
    }
}

/// One page holding one raster image among other objects, and one text
/// annotation.
fn one_page_document() -> Document {
    let mut page = blank_page(612_000, 792_000);
    page.label = Some("cover".to_string());
    page.objects = vec![
        PageObject::Text,
        PageObject::Image(sample_image()),
        PageObject::Path,
    ];
    page.annotations = vec![text_annotation()];
    Document::new(vec![page]).expect("valid document")
}

fn page_handle_from(output: &ColumnOutput) -> PageHandle {
    match output {
        ColumnOutput::Cell(Value::Pointer(h)) => h.clone(),
        other => panic!("expected a pointer cell, got {:?}", other),
    }
}

fn cell(output: ColumnOutput) -> Value {
    match output {
        ColumnOutput::Cell(v) => v,
        other => panic!("expected a finished cell, got {:?}", other),
    }
}

#[test]
fn document_table_yields_one_row_per_page_in_order() {
    let doc = Document::new(vec![blank_page(100_000, 200_000), blank_page(300_000, 400_000)])
        .unwrap();
    let mut arena = SessionArena::new();
    let mut cursor = PdfPagesCursor::new();
    cursor.filter(doc, &mut arena);

    assert!(!cursor.eof(&arena));
    assert_eq!(cursor.rowid(), 0);
    assert_eq!(cell(cursor.column(&arena, 0)), Value::Real(100_000));
    assert_eq!(cell(cursor.column(&arena, 1)), Value::Real(200_000));
    assert_eq!(cell(cursor.column(&arena, 2)), Value::Null); // no label
    assert_eq!(cell(cursor.column(&arena, 5)), Value::Null); // hidden column
    // The full-text column demands a fresh extraction of this very page.
    let h = page_handle_from(&cursor.column(&arena, 4));
    assert_eq!(
        cursor.column(&arena, 3),
        ColumnOutput::ExtractPageText { session: h.session, page: 0 }
    );

    cursor.next(&arena);
    assert!(!cursor.eof(&arena));
    assert_eq!(cursor.rowid(), 1);
    assert_eq!(cell(cursor.column(&arena, 0)), Value::Real(300_000));
    assert_eq!(cell(cursor.column(&arena, 1)), Value::Real(400_000));
    assert_eq!(
        cursor.column(&arena, 3),
        ColumnOutput::ExtractPageText { session: h.session, page: 1 }
    );

    cursor.next(&arena);
    assert!(cursor.eof(&arena));
}

#[test]
fn page_handles_name_their_own_row() {
    let doc = Document::new(vec![blank_page(10_000, 10_000), blank_page(20_000, 20_000)]).unwrap();
    let mut arena = SessionArena::new();
    let mut cursor = PdfPagesCursor::new();
    cursor.filter(doc, &mut arena);

    let h0 = page_handle_from(&cursor.column(&arena, 4));
    cursor.next(&arena);
    let h1 = page_handle_from(&cursor.column(&arena, 4));
    assert_eq!(h0.tag, page_tag());
    assert_eq!(h0.page, 0);
    assert_eq!(h1.page, 1);
    assert_eq!(h0.session, h1.session);
}

#[test]
fn scenario_one_page_with_one_image_and_one_text_annotation() {
    let doc = one_page_document();
    let mut arena = SessionArena::new();
    let mut pages = PdfPagesCursor::new();
    pages.filter(doc, &mut arena);

    // Document table: exactly one row, carrying the page handle.
    assert!(!pages.eof(&arena));
    let handle = page_handle_from(&pages.column(&arena, 4));
    pages.next(&arena);
    assert!(pages.eof(&arena));

    // Image table over that handle: exactly one row with positive
    // geometry and a payload that decodes as a valid image.
    let mut images = PdfImagesCursor::new();
    images.filter(&handle, &arena).expect("handle resolves");
    assert!(!images.eof());
    match (
        cell(images.column(&arena, 0)),
        cell(images.column(&arena, 1)),
        cell(images.column(&arena, 2)),
        cell(images.column(&arena, 3)),
    ) {
        (Value::Real(x), Value::Real(y), Value::Real(w), Value::Real(h)) => {
            assert_eq!(x, 10_000);
            assert_eq!(y, 20_000);
            assert!(w > 0 && h > 0);
        }
        other => panic!("expected real geometry, got {:?}", other),
    }
    // The payload column demands a fresh composite of exactly the
    // current object; the encoded pixels decode back as a valid image.
    assert_eq!(
        images.column(&arena, 4),
        ColumnOutput::RenderImagePayload { session: handle.session, page: 0, object: 1 }
    );
    let payload = encode_payload_png(&sample_render()).expect("well-formed pixels encode");
    let decoded = image::load_from_memory(&payload).expect("payload decodes").to_rgba8();
    assert_eq!(decoded.dimensions(), (2, 1));
    assert_eq!(decoded.as_raw().as_slice(), &[255, 0, 0, 255, 0, 0, 255, 255]);
    images.next(&arena);
    assert!(images.eof());

    // Annotation table over the same handle: exactly one row, tagged
    // "text", with non-null contents.
    let mut annotations = PdfAnnotationsCursor::new();
    annotations.filter(&handle, &arena).expect("handle resolves");
    assert!(!annotations.eof());
    assert_eq!(annotations.column(&arena, 0), Value::Text("text".to_string()));
    assert_eq!(annotations.column(&arena, 6), Value::Text("hello".to_string()));
    annotations.next(&arena);
    assert!(annotations.eof());
}

#[test]
fn image_scan_skips_every_non_image_object() {
    let mut page = blank_page(100_000, 100_000);
    page.objects = vec![
        PageObject::Path,
        PageObject::Image(sample_image()),
        PageObject::Text,
        PageObject::Image(sample_image()),
        PageObject::Shading,
    ];
    let doc = Document::new(vec![page]).unwrap();
    let mut arena = SessionArena::new();
    let mut pages = PdfPagesCursor::new();
    pages.filter(doc, &mut arena);
    let handle = page_handle_from(&pages.column(&arena, 4));

    let mut images = PdfImagesCursor::new();
    images.filter(&handle, &arena).unwrap();
    assert!(!images.eof());
    assert_eq!(images.rowid(), 1);
    images.next(&arena);
    assert!(!images.eof());
    assert_eq!(images.rowid(), 2);
    images.next(&arena);
    assert!(images.eof());
}

#[test]
fn image_scan_over_page_without_images_is_empty() {
    let mut page = blank_page(100_000, 100_000);
    page.objects = vec![PageObject::Text, PageObject::Path, PageObject::Unsupported];
    let doc = Document::new(vec![page]).unwrap();
    let mut arena = SessionArena::new();
    let mut pages = PdfPagesCursor::new();
    pages.filter(doc, &mut arena);
    let handle = page_handle_from(&pages.column(&arena, 4));

    let mut images = PdfImagesCursor::new();
    images.filter(&handle, &arena).unwrap();
    assert!(images.eof());
}

#[test]
fn refiltering_with_the_same_handle_reproduces_the_scan() {
    let doc = one_page_document();
    let mut arena = SessionArena::new();
    let mut pages = PdfPagesCursor::new();
    pages.filter(doc, &mut arena);
    let handle = page_handle_from(&pages.column(&arena, 4));

    let mut images = PdfImagesCursor::new();
    let mut first: Vec<(i64, ColumnOutput, ColumnOutput)> = Vec::new();
    images.filter(&handle, &arena).unwrap();
    while !images.eof() {
        first.push((images.rowid(), images.column(&arena, 0), images.column(&arena, 4)));
        images.next(&arena);
    }
    let mut second: Vec<(i64, ColumnOutput, ColumnOutput)> = Vec::new();
    images.filter(&handle, &arena).unwrap();
    while !images.eof() {
        second.push((images.rowid(), images.column(&arena, 0), images.column(&arena, 4)));
        images.next(&arena);
    }
    assert!(!first.is_empty());
    assert_eq!(first, second);
}

#[test]
fn foreign_tag_is_rejected_not_dereferenced() {
    let doc = one_page_document();
    let mut arena = SessionArena::new();
    let mut pages = PdfPagesCursor::new();
    pages.filter(doc, &mut arena);
    let mut handle = page_handle_from(&pages.column(&arena, 4));
    handle.tag = vec![1, 2, 3, 0];

    let mut images = PdfImagesCursor::new();
    assert_eq!(images.filter(&handle, &arena), Err(TableError::TagMismatch));
    let mut annotations = PdfAnnotationsCursor::new();
    assert_eq!(annotations.filter(&handle, &arena), Err(TableError::TagMismatch));
}

#[test]
fn handle_outlived_by_refilter_becomes_stale() {
    let mut arena = SessionArena::new();
    let mut pages = PdfPagesCursor::new();
    pages.filter(one_page_document(), &mut arena);
    let handle = page_handle_from(&pages.column(&arena, 4));

    // Re-filtering the parent cursor releases its session.
    pages.filter(one_page_document(), &mut arena);
    let mut images = PdfImagesCursor::new();
    assert_eq!(images.filter(&handle, &arena), Err(TableError::StaleSession));
}

#[test]
fn handle_with_page_index_out_of_range_is_rejected() {
    let doc = one_page_document();
    let mut arena = SessionArena::new();
    let mut pages = PdfPagesCursor::new();
    pages.filter(doc, &mut arena);
    let mut handle = page_handle_from(&pages.column(&arena, 4));
    handle.page = 7;

    let mut annotations = PdfAnnotationsCursor::new();
    assert_eq!(annotations.filter(&handle, &arena), Err(TableError::PageOutOfRange));
}

#[test]
fn annotation_without_bounds_or_text_yields_nulls() {
    let mut page = blank_page(100_000, 100_000);
    page.annotations = vec![Annotation {
        kind: AnnotationKind::Popup,
        bounds: None,
        name: None,
        contents: None,
        creator: None,
        created_at: None,
        modified_at: None,
    }];
    let doc = Document::new(vec![page]).unwrap();
    let mut arena = SessionArena::new();
    let mut pages = PdfPagesCursor::new();
    pages.filter(doc, &mut arena);
    let handle = page_handle_from(&pages.column(&arena, 4));

    let mut annotations = PdfAnnotationsCursor::new();
    annotations.filter(&handle, &arena).unwrap();
    assert!(!annotations.eof());
    assert_eq!(annotations.column(&arena, 0), Value::Text("popup".to_string()));
    for i in 1..=9 {
        assert_eq!(annotations.column(&arena, i), Value::Null);
    }
    assert_eq!(annotations.column(&arena, 10), Value::Null);
}
