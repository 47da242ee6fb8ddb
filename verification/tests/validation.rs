//! Document validation and the annotation tag vocabulary.

use pdf_vtab::annotations::kind_tag;
use pdf_vtab::model::{Bitmap, Bounds, Document, ImageObject, Page, PageObject, AnnotationKind,
    MAX_DIM_MILLIPOINTS};
use pdf_vtab::render::encode_payload_png;
use pdf_vtab::pages::PdfPagesCursor;
use pdf_vtab::registry::SessionArena;
use pdf_vtab::value::TableError;

fn blank_page(width: i64, height: i64) -> Page {
    Page { width, height, label: None, objects: Vec::new(), annotations: Vec::new() }
}

#[test]
fn nonpositive_page_geometry_is_rejected() {
    assert_eq!(
        Document::new(vec![blank_page(0, 100_000)]),
        Err(TableError::InvalidGeometry)
    );
    assert_eq!(
        Document::new(vec![blank_page(100_000, -5)]),
        Err(TableError::InvalidGeometry)
    );
}

#[test]
fn nonpositive_image_geometry_is_rejected() {
    let mut page = blank_page(100_000, 100_000);
    page.objects = vec![PageObject::Image(ImageObject {
        bounds: Bounds { left: 0, top: 0, width: 0, height: 10_000 },
    })];
    assert_eq!(Document::new(vec![page]), Err(TableError::InvalidGeometry));
}

#[test]
fn geometry_too_wide_for_the_representation_is_rejected() {
    assert_eq!(
        Document::new(vec![blank_page(MAX_DIM_MILLIPOINTS + 1, 100_000)]),
        Err(TableError::InvalidGeometry)
    );
    assert!(Document::new(vec![blank_page(MAX_DIM_MILLIPOINTS, 100_000)]).is_ok());
}

#[test]
fn mismatched_render_buffer_fails_that_read() {
    // A renderer handing back a buffer that does not match its declared
    // dimensions fails the one payload read that asked for it.
    let bad = Bitmap { width: 2, height: 2, rgba: vec![0, 0, 0, 255] };
    assert_eq!(encode_payload_png(&bad), Err(TableError::MalformedBitmap));
    let zero = Bitmap { width: 0, height: 1, rgba: Vec::new() };
    assert_eq!(encode_payload_png(&zero), Err(TableError::MalformedBitmap));
}

#[test]
fn page_count_beyond_the_row_index_is_rejected() {
    let mut pages = Vec::new();
    for _ in 0..65_536 {
        pages.push(blank_page(1_000, 1_000));
    }
    assert_eq!(Document::new(pages), Err(TableError::TooManyPages));
}

#[test]
fn empty_document_is_valid_and_scans_to_nothing() {
    let doc = Document::new(Vec::new()).unwrap();
    let mut arena = SessionArena::new();
    let mut cursor = PdfPagesCursor::new();
    cursor.filter(doc, &mut arena);
    assert!(cursor.eof(&arena));
}

#[test]
fn every_annotation_kind_maps_into_the_fixed_vocabulary() {
    let kinds = [
        AnnotationKind::Unknown,
        AnnotationKind::Text,
        AnnotationKind::Link,
        AnnotationKind::FreeText,
        AnnotationKind::Line,
        AnnotationKind::Square,
        AnnotationKind::Circle,
        AnnotationKind::Polygon,
        AnnotationKind::Polyline,
        AnnotationKind::Highlight,
        AnnotationKind::Underline,
        AnnotationKind::Squiggly,
        AnnotationKind::Strikeout,
        AnnotationKind::Stamp,
        AnnotationKind::Caret,
        AnnotationKind::Ink,
        AnnotationKind::Popup,
        AnnotationKind::FileAttachment,
        AnnotationKind::Sound,
        AnnotationKind::Movie,
        AnnotationKind::Widget,
        AnnotationKind::Screen,
        AnnotationKind::PrinterMark,
        AnnotationKind::TrapNet,
        AnnotationKind::Watermark,
        AnnotationKind::ThreeD,
        AnnotationKind::RichMedia,
        AnnotationKind::XfaWidget,
        AnnotationKind::Redacted,
    ];
    let vocabulary = [
        "unknown",
        "text",
        "link",
        "freetext",
        "line",
        "square",
        "circle",
        "polygon",
        "polyline",
        "highlight",
        "underline",
        "squiggly",
        "strikeout",
        "stamp",
        "caret",
        "ink",
        "popup",
        "fileattachment",
        "sound",
        "movie",
        "widget",
        "screen",
        "printermark",
        "trapnet",
        "watermark",
        "threed",
        "richmedia",
        "xfawidget",
        "redacted",
    ];
    for (kind, expected) in kinds.iter().zip(vocabulary.iter()) {
        let tag = kind_tag(*kind);
        assert_eq!(&tag, expected);
        assert!(!tag.is_empty());
        assert_eq!(tag, tag.to_lowercase());
        assert!(vocabulary.contains(&tag.as_str()));
    }
}
