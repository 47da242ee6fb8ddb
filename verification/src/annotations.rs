//! The annotation table: one row per annotation of one page, without a
//! subtype filter.
//!
//! The cursor shape matches the image table's, but every annotation is
//! yielded. The kind column translates the internal annotation-kind
//! enumeration into a fixed vocabulary of lowercase tags, exhaustively;
//! optional textual fields surface as null when absent, never as an
//! empty string, and a kind without a bounding box yields null geometry
//! rather than an error.

use vstd::prelude::*;
use crate::model::{AnnotationKind, Page};
use crate::plan::{plan_matches, plan_scan, ConstraintInfo, PlanError, ScanPlan};
use crate::registry::{resolve_error, resolve_page, resolved_page, resolves, PageHandle,
    SessionArena};
use crate::value::{TableError, Value};

verus! {

/// Index of the hidden parent-key column: the page handle.
pub const ANNOTATIONS_KEY_COLUMN: i32 = 10;

/// The schema the annotation table declares to the host engine.
pub open spec fn annotations_schema_spec() -> Seq<char> {
    "CREATE TABLE x(type, x, y, width, height, name, contents, creator, created_at, modified_at, page hidden)"@
}

/// The user-visible columns of the annotation table, in schema order.
enum Columns {
    Kind,
    X,
    Y,
    Width,
    Height,
    Name,
    Contents,
    Creator,
    CreatedAt,
    ModifiedAt,
    PagePtr,
}

fn column(index: i32) -> (r: Option<Columns>)
    ensures
        r == (if index == 0 {
            Some(Columns::Kind)
        } else if index == 1 {
            Some(Columns::X)
        } else if index == 2 {
            Some(Columns::Y)
        } else if index == 3 {
            Some(Columns::Width)
        } else if index == 4 {
            Some(Columns::Height)
        } else if index == 5 {
            Some(Columns::Name)
        } else if index == 6 {
            Some(Columns::Contents)
        } else if index == 7 {
            Some(Columns::Creator)
        } else if index == 8 {
            Some(Columns::CreatedAt)
        } else if index == 9 {
            Some(Columns::ModifiedAt)
        } else if index == 10 {
            Some(Columns::PagePtr)
        } else {
            None
        }),
{
    match index {
        0 => Some(Columns::Kind),
        1 => Some(Columns::X),
        2 => Some(Columns::Y),
        3 => Some(Columns::Width),
        4 => Some(Columns::Height),
        5 => Some(Columns::Name),
        6 => Some(Columns::Contents),
        7 => Some(Columns::Creator),
        8 => Some(Columns::CreatedAt),
        9 => Some(Columns::ModifiedAt),
        10 => Some(Columns::PagePtr),
        _ => None,
    }
}

/// The lowercase tag each annotation kind maps to.
pub open spec fn kind_tag_spec(k: AnnotationKind) -> Seq<char> {
    match k {
        AnnotationKind::Unknown => "unknown"@,
        AnnotationKind::Text => "text"@,
        AnnotationKind::Link => "link"@,
        AnnotationKind::FreeText => "freetext"@,
        AnnotationKind::Line => "line"@,
        AnnotationKind::Square => "square"@,
        AnnotationKind::Circle => "circle"@,
        AnnotationKind::Polygon => "polygon"@,
        AnnotationKind::Polyline => "polyline"@,
        AnnotationKind::Highlight => "highlight"@,
        AnnotationKind::Underline => "underline"@,
        AnnotationKind::Squiggly => "squiggly"@,
        AnnotationKind::Strikeout => "strikeout"@,
        AnnotationKind::Stamp => "stamp"@,
        AnnotationKind::Caret => "caret"@,
        AnnotationKind::Ink => "ink"@,
        AnnotationKind::Popup => "popup"@,
        AnnotationKind::FileAttachment => "fileattachment"@,
        AnnotationKind::Sound => "sound"@,
        AnnotationKind::Movie => "movie"@,
        AnnotationKind::Widget => "widget"@,
        AnnotationKind::Screen => "screen"@,
        AnnotationKind::PrinterMark => "printermark"@,
        AnnotationKind::TrapNet => "trapnet"@,
        AnnotationKind::Watermark => "watermark"@,
        AnnotationKind::ThreeD => "threed"@,
        AnnotationKind::RichMedia => "richmedia"@,
        AnnotationKind::XfaWidget => "xfawidget"@,
        AnnotationKind::Redacted => "redacted"@,
    }
}

/// The fixed tag vocabulary of the kind column.
pub open spec fn tag_vocabulary() -> Set<Seq<char>> {
    set![
        "unknown"@,
        "text"@,
        "link"@,
        "freetext"@,
        "line"@,
        "square"@,
        "circle"@,
        "polygon"@,
        "polyline"@,
        "highlight"@,
        "underline"@,
        "squiggly"@,
        "strikeout"@,
        "stamp"@,
        "caret"@,
        "ink"@,
        "popup"@,
        "fileattachment"@,
        "sound"@,
        "movie"@,
        "widget"@,
        "screen"@,
        "printermark"@,
        "trapnet"@,
        "watermark"@,
        "threed"@,
        "richmedia"@,
        "xfawidget"@,
        "redacted"@,
    ]
}

/// The kind column's tag for `k`, as a fresh string.
pub fn kind_tag(k: AnnotationKind) -> (r: String)
    ensures
        r@ == kind_tag_spec(k),
{
    match k {
        AnnotationKind::Unknown => "unknown".to_owned(),
        AnnotationKind::Text => "text".to_owned(),
        AnnotationKind::Link => "link".to_owned(),
        AnnotationKind::FreeText => "freetext".to_owned(),
        AnnotationKind::Line => "line".to_owned(),
        AnnotationKind::Square => "square".to_owned(),
        AnnotationKind::Circle => "circle".to_owned(),
        AnnotationKind::Polygon => "polygon".to_owned(),
        AnnotationKind::Polyline => "polyline".to_owned(),
        AnnotationKind::Highlight => "highlight".to_owned(),
        AnnotationKind::Underline => "underline".to_owned(),
        AnnotationKind::Squiggly => "squiggly".to_owned(),
        AnnotationKind::Strikeout => "strikeout".to_owned(),
        AnnotationKind::Stamp => "stamp".to_owned(),
        AnnotationKind::Caret => "caret".to_owned(),
        AnnotationKind::Ink => "ink".to_owned(),
        AnnotationKind::Popup => "popup".to_owned(),
        AnnotationKind::FileAttachment => "fileattachment".to_owned(),
        AnnotationKind::Sound => "sound".to_owned(),
        AnnotationKind::Movie => "movie".to_owned(),
        AnnotationKind::Widget => "widget".to_owned(),
        AnnotationKind::Screen => "screen".to_owned(),
        AnnotationKind::PrinterMark => "printermark".to_owned(),
        AnnotationKind::TrapNet => "trapnet".to_owned(),
        AnnotationKind::Watermark => "watermark".to_owned(),
        AnnotationKind::ThreeD => "threed".to_owned(),
        AnnotationKind::RichMedia => "richmedia".to_owned(),
        AnnotationKind::XfaWidget => "xfawidget".to_owned(),
        AnnotationKind::Redacted => "redacted".to_owned(),
    }
}

/// Every annotation kind maps to a nonempty tag of the fixed vocabulary:
/// the kind column is never null, never empty, never an unmapped raw
/// value.
pub proof fn kind_tag_in_vocabulary(k: AnnotationKind)
    ensures
        tag_vocabulary().contains(kind_tag_spec(k)),
        kind_tag_spec(k).len() > 0,
{
    match k {
        AnnotationKind::Unknown => reveal_strlit("unknown"),
        AnnotationKind::Text => reveal_strlit("text"),
        AnnotationKind::Link => reveal_strlit("link"),
        AnnotationKind::FreeText => reveal_strlit("freetext"),
        AnnotationKind::Line => reveal_strlit("line"),
        AnnotationKind::Square => reveal_strlit("square"),
        AnnotationKind::Circle => reveal_strlit("circle"),
        AnnotationKind::Polygon => reveal_strlit("polygon"),
        AnnotationKind::Polyline => reveal_strlit("polyline"),
        AnnotationKind::Highlight => reveal_strlit("highlight"),
        AnnotationKind::Underline => reveal_strlit("underline"),
        AnnotationKind::Squiggly => reveal_strlit("squiggly"),
        AnnotationKind::Strikeout => reveal_strlit("strikeout"),
        AnnotationKind::Stamp => reveal_strlit("stamp"),
        AnnotationKind::Caret => reveal_strlit("caret"),
        AnnotationKind::Ink => reveal_strlit("ink"),
        AnnotationKind::Popup => reveal_strlit("popup"),
        AnnotationKind::FileAttachment => reveal_strlit("fileattachment"),
        AnnotationKind::Sound => reveal_strlit("sound"),
        AnnotationKind::Movie => reveal_strlit("movie"),
        AnnotationKind::Widget => reveal_strlit("widget"),
        AnnotationKind::Screen => reveal_strlit("screen"),
        AnnotationKind::PrinterMark => reveal_strlit("printermark"),
        AnnotationKind::TrapNet => reveal_strlit("trapnet"),
        AnnotationKind::Watermark => reveal_strlit("watermark"),
        AnnotationKind::ThreeD => reveal_strlit("threed"),
        AnnotationKind::RichMedia => reveal_strlit("richmedia"),
        AnnotationKind::XfaWidget => reveal_strlit("xfawidget"),
        AnnotationKind::Redacted => reveal_strlit("redacted"),
    }
}

/// The annotation virtual table.
pub struct PdfAnnotationsTable {}

impl PdfAnnotationsTable {
    /// Declare the table's schema to the host.
    pub fn connect() -> (r: (String, PdfAnnotationsTable))
        ensures
            r.0@ == annotations_schema_spec(),
    {
        (
            "CREATE TABLE x(type, x, y, width, height, name, contents, creator, created_at, modified_at, page hidden)".to_owned(),
            PdfAnnotationsTable {},
        )
    }

    pub fn destroy(&self) -> (r: Result<(), TableError>)
        ensures
            r is Ok,
    {
        Ok(())
    }

    /// Accept or reject a proposed scan plan: the hidden page-handle
    /// column must carry a usable equality constraint.
    pub fn best_index(&self, constraints: &Vec<ConstraintInfo>) -> (r: Result<ScanPlan, PlanError>)
        ensures
            plan_matches(constraints@, ANNOTATIONS_KEY_COLUMN, r),
    {
        plan_scan(constraints, ANNOTATIONS_KEY_COLUMN)
    }

    pub fn open(&self) -> (c: PdfAnnotationsCursor)
        ensures
            c == PdfAnnotationsCursor::initial(),
    {
        PdfAnnotationsCursor::new()
    }
}

/// Per-scan cursor over the annotations of one page.
pub struct PdfAnnotationsCursor {
    /// Row ordinal: reset by `filter`, bumped by every advance.
    pub rowid: i64,
    /// The arena session the parent handle named.
    pub session: Option<usize>,
    /// The page index within that session.
    pub page: Option<usize>,
    /// Index of the next annotation to yield.
    pub pos: usize,
    /// Index of the current annotation, or none once exhausted.
    pub current: Option<usize>,
}

/// One advance of the annotation cursor over a page with `count`
/// annotations: bump the row ordinal and take the next annotation, or
/// report exhaustion.
pub open spec fn annotations_step(c: PdfAnnotationsCursor, count: int) -> PdfAnnotationsCursor {
    if c.pos < count {
        PdfAnnotationsCursor {
            rowid: (c.rowid + 1) as i64,
            session: c.session,
            page: c.page,
            pos: (c.pos + 1) as usize,
            current: Some(c.pos),
        }
    } else {
        PdfAnnotationsCursor {
            rowid: (c.rowid + 1) as i64,
            session: c.session,
            page: c.page,
            pos: c.pos,
            current: None,
        }
    }
}

/// The cursor state immediately after `filter` resolved its handle to a
/// page with `count` annotations.
pub open spec fn annotations_after_filter(sid: usize, pidx: usize, count: int) -> PdfAnnotationsCursor {
    annotations_step(
        PdfAnnotationsCursor {
            rowid: 0,
            session: Some(sid),
            page: Some(pidx),
            pos: 0,
            current: None,
        },
        count,
    )
}

/// The cursor state after `filter` and `k` further advances.
pub open spec fn annotations_iterate(c: PdfAnnotationsCursor, count: int, k: nat) -> PdfAnnotationsCursor
    decreases k,
{
    if k == 0 {
        c
    } else {
        annotations_step(annotations_iterate(c, count, (k - 1) as nat), count)
    }
}

impl PdfAnnotationsCursor {
    /// The state `open` returns: unfiltered, not yet scannable.
    pub open spec fn initial() -> PdfAnnotationsCursor {
        PdfAnnotationsCursor { rowid: 0, session: None, page: None, pos: 0, current: None }
    }

    /// The cursor has been filtered, its session is alive, and its
    /// position is consistent with the page's annotation list.
    pub open spec fn wf(self, arena: SessionArena) -> bool {
        &&& self.session matches Some(s) && arena.live(s as int)
        &&& self.page matches Some(p) && p < arena.doc(self.session->0 as int).pages@.len()
        &&& self.pos <= self.annotation_count(arena)
        &&& match self.current {
            Some(i) => i < self.annotation_count(arena) && self.pos == i + 1,
            None => true,
        }
    }

    /// The page this cursor scans.
    pub open spec fn scanned_page(self, arena: SessionArena) -> Page {
        arena.doc(self.session->0 as int).pages@[self.page->0 as int]
    }

    pub open spec fn annotation_count(self, arena: SessionArena) -> int {
        self.scanned_page(arena).annotations@.len() as int
    }

    pub fn new() -> (c: Self)
        ensures
            c == PdfAnnotationsCursor::initial(),
    {
        PdfAnnotationsCursor { rowid: 0, session: None, page: None, pos: 0, current: None }
    }

    /// Begin a new scan: recover the typed page reference behind the
    /// opaque handle (rejecting a foreign tag, a released session, or a
    /// page index out of range), reset the row ordinal, and take the
    /// first annotation. A failed resolution leaves the cursor unchanged.
    pub fn filter(&mut self, h: &PageHandle, arena: &SessionArena) -> (r: Result<(), TableError>)
        requires
            arena.wf(),
        ensures
            match r {
                Ok(()) => resolves(*arena, *h) && *final(self) == annotations_after_filter(
                    h.session,
                    h.page,
                    resolved_page(*arena, *h).annotations@.len() as int,
                ) && final(self).wf(*arena),
                Err(e) => !resolves(*arena, *h) && resolve_error(*arena, *h, e) && *final(self)
                    == *old(self),
            },
    {
        match resolve_page(arena, h) {
            Err(e) => Err(e),
            Ok(_page) => {
                self.session = Some(h.session);
                self.page = Some(h.page);
                self.pos = 0;
                self.current = None;
                self.rowid = 0;
                self.next(arena);
                Ok(())
            },
        }
    }

    /// Advance: bump the row ordinal and move to the next annotation, or
    /// to exhaustion.
    pub fn next(&mut self, arena: &SessionArena)
        requires
            arena.wf(),
            old(self).wf(*arena),
            old(self).rowid < i64::MAX,
        ensures
            *final(self) == annotations_step(*old(self), old(self).annotation_count(*arena)),
            final(self).wf(*arena),
    {
        self.rowid = self.rowid + 1;
        let sid = match self.session {
            Some(s) => s,
            None => unreached(),
        };
        let pidx = match self.page {
            Some(p) => p,
            None => unreached(),
        };
        let d = match arena.session(sid) {
            Some(d) => d,
            None => unreached(),
        };
        let count = d.pages[pidx].annotations.len();
        if self.pos < count {
            self.current = Some(self.pos);
            self.pos = self.pos + 1;
        } else {
            self.current = None;
        }
    }

    /// Whether the annotation list is exhausted.
    pub fn eof(&self) -> (r: bool)
        ensures
            r == (self.current is None),
    {
        match self.current {
            Some(_) => false,
            None => true,
        }
    }

    pub fn rowid(&self) -> (r: i64)
        ensures
            r == self.rowid,
    {
        self.rowid
    }

    /// Project one column of the current annotation: its kind as a tag
    /// from the fixed vocabulary, its bounds as fixed-point reals when it
    /// has any (null otherwise), each optional textual field as text or
    /// null, and the hidden page-handle column (or an unknown index) as
    /// null.
    pub fn column(&self, arena: &SessionArena, i: i32) -> (r: Value)
        requires
            arena.wf(),
            self.wf(*arena),
            self.current is Some,
        ensures
            ({
                let a = self.scanned_page(*arena).annotations@[self.current->0 as int];
                &&& (i == 0 ==> (r matches Value::Text(t) && t@ == kind_tag_spec(a.kind)))
                &&& (i == 1 ==> r == match a.bounds {
                    Some(b) => Value::Real(b.left),
                    None => Value::Null,
                })
                &&& (i == 2 ==> r == match a.bounds {
                    Some(b) => Value::Real(b.top),
                    None => Value::Null,
                })
                &&& (i == 3 ==> r == match a.bounds {
                    Some(b) => Value::Real(b.width),
                    None => Value::Null,
                })
                &&& (i == 4 ==> r == match a.bounds {
                    Some(b) => Value::Real(b.height),
                    None => Value::Null,
                })
                &&& (i == 5 ==> match a.name {
                    Some(s) => (r matches Value::Text(t) && t@ == s@),
                    None => r == Value::Null,
                })
                &&& (i == 6 ==> match a.contents {
                    Some(s) => (r matches Value::Text(t) && t@ == s@),
                    None => r == Value::Null,
                })
                &&& (i == 7 ==> match a.creator {
                    Some(s) => (r matches Value::Text(t) && t@ == s@),
                    None => r == Value::Null,
                })
                &&& (i == 8 ==> match a.created_at {
                    Some(s) => (r matches Value::Text(t) && t@ == s@),
                    None => r == Value::Null,
                })
                &&& (i == 9 ==> match a.modified_at {
                    Some(s) => (r matches Value::Text(t) && t@ == s@),
                    None => r == Value::Null,
                })
                &&& ((i == 10 || i < 0 || i > 10) ==> r == Value::Null)
            }),
    {
        let sid = match self.session {
            Some(s) => s,
            None => unreached(),
        };
        let pidx = match self.page {
            Some(p) => p,
            None => unreached(),
        };
        let d = match arena.session(sid) {
            Some(d) => d,
            None => unreached(),
        };
        let cur = match self.current {
            Some(c) => c,
            None => unreached(),
        };
        let a = &d.pages[pidx].annotations[cur];
        match column(i) {
            Some(Columns::Kind) => Value::Text(kind_tag(a.kind)),
            Some(Columns::X) => match &a.bounds {
                Some(b) => Value::Real(b.left),
                None => Value::Null,
            },
            Some(Columns::Y) => match &a.bounds {
                Some(b) => Value::Real(b.top),
                None => Value::Null,
            },
            Some(Columns::Width) => match &a.bounds {
                Some(b) => Value::Real(b.width),
                None => Value::Null,
            },
            Some(Columns::Height) => match &a.bounds {
                Some(b) => Value::Real(b.height),
                None => Value::Null,
            },
            Some(Columns::Name) => match &a.name {
                Some(s) => Value::Text(s.clone()),
                None => Value::Null,
            },
            Some(Columns::Contents) => match &a.contents {
                Some(s) => Value::Text(s.clone()),
                None => Value::Null,
            },
            Some(Columns::Creator) => match &a.creator {
                Some(s) => Value::Text(s.clone()),
                None => Value::Null,
            },
            Some(Columns::CreatedAt) => match &a.created_at {
                Some(s) => Value::Text(s.clone()),
                None => Value::Null,
            },
            Some(Columns::ModifiedAt) => match &a.modified_at {
                Some(s) => Value::Text(s.clone()),
                None => Value::Null,
            },
            Some(Columns::PagePtr) => Value::Null,
            None => Value::Null,
        }
    }
}

/// A scan over a page with `count` annotations yields exactly `count`
/// rows, in list order: after `filter` and `k` advances the cursor sits
/// on annotation `k` with row ordinal `k + 1`, and it is exhausted
/// precisely once every annotation has been yielded.
pub proof fn annotations_scan_yields_every_annotation(
    sid: usize,
    pidx: usize,
    count: int,
    k: nat,
)
    requires
        0 <= count <= usize::MAX,
        count < i64::MAX,
        k <= count,
    ensures
        ({
            let state = annotations_iterate(annotations_after_filter(sid, pidx, count), count, k);
            &&& state.rowid == k + 1
            &&& k < count ==> state.current == Some(k as usize) && state.pos == k + 1
            &&& k == count ==> state.current is None
        }),
    decreases k,
{
    if k > 0 {
        annotations_scan_yields_every_annotation(sid, pidx, count, (k - 1) as nat);
    }
}

/// Re-filtering with the same parent handle resolves to the same page
/// and therefore reproduces the same cursor state at every step: the
/// whole row sequence of a scan is a function of the resolved page
/// alone.
pub proof fn refilter_annotations_identical_scan(
    c1: PdfAnnotationsCursor,
    c2: PdfAnnotationsCursor,
    sid: usize,
    pidx: usize,
    count: int,
    k: nat,
)
    requires
        c1 == annotations_after_filter(sid, pidx, count),
        c2 == annotations_after_filter(sid, pidx, count),
    ensures
        annotations_iterate(c1, count, k) == annotations_iterate(c2, count, k),
{
}

} // verus!
