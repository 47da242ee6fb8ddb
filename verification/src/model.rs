//! Plain-value model of one parsed document: pages, their drawable
//! objects, and their annotations.
//!
//! The rendering library's session, page and object values are opaque,
//! lifetime-scoped handles; the unverified shell reads their cheap,
//! declared fields once into this model, and every table scans the
//! model. The expensive paths — full-text extraction and pixel
//! compositing — are deliberately not part of the model: the cursors
//! demand them per read (see `ColumnOutput`), so their cost and their
//! failures belong to the single row read that asked. Geometry is
//! carried in millipoints (thousandths of a point) so that contracts can
//! state positivity and bounds exactly.

use vstd::prelude::*;
use crate::value::TableError;

verus! {

/// Upper bound on a declared dimension, in millipoints: the widest value
/// the fixed-point representation can scale by the 256-pixel thumbnail
/// policy without overflowing a signed 64-bit cell (the floor of the
/// cell's maximum divided by 256).
pub const MAX_DIM_MILLIPOINTS: i64 = 36_028_797_018_963_967;

/// Upper bound on one side of a rendered pixel buffer: the renderer
/// addresses pixels with 32-bit signed coordinates.
pub const MAX_BITMAP_DIM: u32 = 0x7fff_ffff;

/// Upper bound on the number of pages of one document: the page row index
/// is a 16-bit value, as in the rendering library's page numbering.
pub const MAX_PAGES: usize = 65535;

/// A rectangle in page space, in millipoints.
#[derive(Clone, Copy, PartialEq, Eq, Structural, Debug)]
pub struct Bounds {
    pub left: i64,
    pub top: i64,
    pub width: i64,
    pub height: i64,
}

/// A fully composited RGBA pixel buffer, row-major, four bytes per
/// pixel: what the rendering library hands back when a payload or
/// thumbnail read asks it to render.
#[derive(Clone, PartialEq, Debug)]
pub struct Bitmap {
    pub width: u32,
    pub height: u32,
    pub rgba: Vec<u8>,
}

impl Bitmap {
    /// A bitmap is well formed when its buffer holds exactly four bytes
    /// per pixel of its declared, nonzero, renderer-addressable
    /// dimensions.
    pub open spec fn wf(self) -> bool {
        &&& 1 <= self.width <= MAX_BITMAP_DIM
        &&& 1 <= self.height <= MAX_BITMAP_DIM
        &&& self.rgba@.len() == 4 * self.width * self.height
    }

    pub fn is_wf(&self) -> (r: bool)
        ensures
            r == self.wf(),
    {
        if self.width < 1 || self.width > MAX_BITMAP_DIM {
            return false;
        }
        if self.height < 1 || self.height > MAX_BITMAP_DIM {
            return false;
        }
        proof {
            assert((self.width as int) * (self.height as int) < 0x4000_0000_0000_0000int)
                by (nonlinear_arith)
                requires
                    self.width <= 0x7fff_ffffu32,
                    self.height <= 0x7fff_ffffu32,
            ;
        }
        let pixels: u64 = (self.width as u64) * (self.height as u64);
        let expected: u64 = 4 * pixels;
        proof {
            assert(4 * ((self.width as int) * (self.height as int)) == 4 * (self.width as int) * (
            self.height as int)) by (nonlinear_arith);
        }
        (self.rgba.len() as u64) == expected
    }
}

/// One embedded raster image of a page: where it sits. Its pixels are
/// never stored here — they are composited per payload read.
#[derive(Clone, Copy, PartialEq, Eq, Structural, Debug)]
pub struct ImageObject {
    pub bounds: Bounds,
}

impl ImageObject {
    pub open spec fn wf(self) -> bool {
        &&& 0 < self.bounds.width <= MAX_DIM_MILLIPOINTS
        &&& 0 < self.bounds.height <= MAX_DIM_MILLIPOINTS
    }
}

/// One drawable object of a page: a tagged union over the kinds the
/// rendering library distinguishes. Only raster images carry data the
/// image table projects; the other kinds exist to be skipped.
#[derive(Clone, Copy, PartialEq, Eq, Structural, Debug)]
pub enum PageObject {
    Text,
    Path,
    Image(ImageObject),
    Shading,
    FormFragment,
    Unsupported,
}

impl PageObject {
    pub open spec fn wf(self) -> bool {
        match self {
            PageObject::Image(img) => img.wf(),
            _ => true,
        }
    }

    /// Whether this object is of the subtype the image table yields.
    pub open spec fn is_image(self) -> bool {
        self is Image
    }
}

/// The annotation kinds the rendering library distinguishes.
#[derive(Clone, Copy, PartialEq, Eq, Structural, Debug)]
pub enum AnnotationKind {
    Unknown,
    Text,
    Link,
    FreeText,
    Line,
    Square,
    Circle,
    Polygon,
    Polyline,
    Highlight,
    Underline,
    Squiggly,
    Strikeout,
    Stamp,
    Caret,
    Ink,
    Popup,
    FileAttachment,
    Sound,
    Movie,
    Widget,
    Screen,
    PrinterMark,
    TrapNet,
    Watermark,
    ThreeD,
    RichMedia,
    XfaWidget,
    Redacted,
}

/// One annotation of a page. Bounds and the textual fields are optional:
/// a kind without a bounding box or an absent field surfaces as null,
/// never as an empty stand-in.
#[derive(Clone, PartialEq, Debug)]
pub struct Annotation {
    pub kind: AnnotationKind,
    pub bounds: Option<Bounds>,
    pub name: Option<String>,
    pub contents: Option<String>,
    pub creator: Option<String>,
    pub created_at: Option<String>,
    pub modified_at: Option<String>,
}

/// One page of a document: its declared geometry, optional label, and
/// its object and annotation lists. Full text is not stored: the text
/// column demands a fresh extraction on every read.
#[derive(Clone, PartialEq, Debug)]
pub struct Page {
    pub width: i64,
    pub height: i64,
    pub label: Option<String>,
    pub objects: Vec<PageObject>,
    pub annotations: Vec<Annotation>,
}

impl Page {
    /// A page is well formed when its declared geometry, and that of
    /// every image object, is positive and representable.
    pub open spec fn wf(self) -> bool {
        &&& 0 < self.width <= MAX_DIM_MILLIPOINTS
        &&& 0 < self.height <= MAX_DIM_MILLIPOINTS
        &&& forall|i: int| 0 <= i < self.objects@.len() ==> self.objects@[i].wf()
    }

    /// Which well-formedness condition, if any, this page breaks.
    pub fn check(&self) -> (r: Result<(), TableError>)
        ensures
            r is Ok <==> self.wf(),
            r is Err ==> r == Result::<(), TableError>::Err(TableError::InvalidGeometry),
    {
        if self.width < 1 || self.width > MAX_DIM_MILLIPOINTS || self.height < 1
            || self.height > MAX_DIM_MILLIPOINTS {
            return Err(TableError::InvalidGeometry);
        }
        let n = self.objects.len();
        let mut i: usize = 0;
        while i < n
            invariant
                n == self.objects@.len(),
                0 <= i <= n,
                forall|j: int| 0 <= j < i ==> self.objects@[j].wf(),
            decreases n - i,
        {
            match &self.objects[i] {
                PageObject::Image(img) => {
                    if img.bounds.width < 1 || img.bounds.width > MAX_DIM_MILLIPOINTS
                        || img.bounds.height < 1 || img.bounds.height > MAX_DIM_MILLIPOINTS {
                        return Err(TableError::InvalidGeometry);
                    }
                },
                _ => {},
            }
            i = i + 1;
        }
        Ok(())
    }
}

/// One parsed document: the in-memory session a single document-table
/// scan works over.
#[derive(Clone, PartialEq, Debug)]
pub struct Document {
    pub pages: Vec<Page>,
}

impl Document {
    pub open spec fn wf(self) -> bool {
        &&& self.pages@.len() <= MAX_PAGES
        &&& forall|i: int| 0 <= i < self.pages@.len() ==> self.pages@[i].wf()
    }

    /// Validate a freshly read document before it enters a session arena:
    /// the page count must fit the row index and every page must be well
    /// formed.
    pub fn new(pages: Vec<Page>) -> (r: Result<Document, TableError>)
        ensures
            r matches Ok(d) ==> d.pages@ == pages@ && d.wf(),
            r is Err ==> !(Document { pages: pages }).wf(),
    {
        if pages.len() > MAX_PAGES {
            return Err(TableError::TooManyPages);
        }
        let n = pages.len();
        let mut i: usize = 0;
        while i < n
            invariant
                n == pages@.len(),
                0 <= i <= n,
                forall|j: int| 0 <= j < i ==> pages@[j].wf(),
            decreases n - i,
        {
            match pages[i].check() {
                Ok(()) => {},
                Err(e) => {
                    return Err(e);
                },
            }
            i = i + 1;
        }
        Ok(Document { pages })
    }
}

} // verus!
