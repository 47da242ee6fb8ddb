//! The document table: one row per page of a parsed document.
//!
//! `filter` opens a fresh session for a validated document (replacing the
//! cursor's previous session, which makes handles into it stale), and the
//! cursor then walks the pages in order, rowid 0 upward. The designated
//! page-handle column emits a tagged handle that child tables resolve
//! through the same arena.

use vstd::prelude::*;
use crate::model::{Document, MAX_DIM_MILLIPOINTS};
use crate::plan::{plan_matches, plan_scan, ConstraintInfo, PlanError, ScanPlan};
use crate::registry::{page_tag, page_tag_spec, PageHandle, SessionArena};
use crate::value::{ColumnOutput, TableError, Value};

verus! {

/// Index of the hidden parent-key column: the raw document bytes.
pub const PAGES_KEY_COLUMN: i32 = 5;

/// The schema the document table declares to the host engine.
pub open spec fn pages_schema_spec() -> Seq<char> {
    "CREATE TABLE x(width int, height int, label text, full_text text, page, pdf hidden)"@
}

/// The user-visible columns of the document table, in schema order.
enum Columns {
    Width,
    Height,
    Label,
    FullText,
    PagePtr,
    Pdf,
}

fn column(index: i32) -> (r: Option<Columns>)
    ensures
        r == (if index == 0 {
            Some(Columns::Width)
        } else if index == 1 {
            Some(Columns::Height)
        } else if index == 2 {
            Some(Columns::Label)
        } else if index == 3 {
            Some(Columns::FullText)
        } else if index == 4 {
            Some(Columns::PagePtr)
        } else if index == 5 {
            Some(Columns::Pdf)
        } else {
            None
        }),
{
    match index {
        0 => Some(Columns::Width),
        1 => Some(Columns::Height),
        2 => Some(Columns::Label),
        3 => Some(Columns::FullText),
        4 => Some(Columns::PagePtr),
        5 => Some(Columns::Pdf),
        _ => None,
    }
}

/// The document virtual table itself. The rendering-library session it
/// shares with its cursors is a capability of the unverified shell; the
/// table carries no per-connection state of its own.
pub struct PdfPagesTable {}

impl PdfPagesTable {
    /// Declare the table's schema to the host.
    pub fn connect() -> (r: (String, PdfPagesTable))
        ensures
            r.0@ == pages_schema_spec(),
    {
        (
            "CREATE TABLE x(width int, height int, label text, full_text text, page, pdf hidden)".to_owned(),
            PdfPagesTable {},
        )
    }

    pub fn destroy(&self) -> (r: Result<(), TableError>)
        ensures
            r is Ok,
    {
        Ok(())
    }

    /// Accept or reject a proposed scan plan: the hidden document-bytes
    /// column must carry a usable equality constraint.
    pub fn best_index(&self, constraints: &Vec<ConstraintInfo>) -> (r: Result<ScanPlan, PlanError>)
        ensures
            plan_matches(constraints@, PAGES_KEY_COLUMN, r),
    {
        plan_scan(constraints, PAGES_KEY_COLUMN)
    }

    pub fn open(&self) -> (c: PdfPagesCursor)
        ensures
            c.rowid == 0,
            c.session is None,
    {
        PdfPagesCursor::new()
    }
}

/// Per-scan cursor over the pages of one document session.
pub struct PdfPagesCursor {
    /// Current page index; doubles as the row ordinal.
    pub rowid: u16,
    /// The arena session owned by this cursor, once `filter` has run.
    pub session: Option<usize>,
}

/// The cursor state immediately after `filter` bound session `sid`.
pub open spec fn pages_after_filter(sid: usize) -> PdfPagesCursor {
    PdfPagesCursor { rowid: 0, session: Some(sid) }
}

/// One `next` step of the document cursor.
pub open spec fn pages_step(c: PdfPagesCursor) -> PdfPagesCursor {
    PdfPagesCursor { rowid: (c.rowid + 1) as u16, session: c.session }
}

/// The cursor state after `filter` and `k` advances.
pub open spec fn pages_iterate(sid: usize, k: nat) -> PdfPagesCursor
    decreases k,
{
    if k == 0 {
        pages_after_filter(sid)
    } else {
        pages_step(pages_iterate(sid, (k - 1) as nat))
    }
}

impl PdfPagesCursor {
    /// The cursor names a session of the arena (alive or already
    /// released): what `filter` needs to re-run safely.
    pub open spec fn bound(self, arena: SessionArena) -> bool {
        match self.session {
            Some(s) => s < arena.slot_count(),
            None => true,
        }
    }

    /// The cursor has been filtered and its session is still alive.
    pub open spec fn wf(self, arena: SessionArena) -> bool {
        match self.session {
            Some(s) => arena.live(s as int),
            None => false,
        }
    }

    pub open spec fn doc(self, arena: SessionArena) -> Document {
        arena.doc(self.session->0 as int)
    }

    pub open spec fn page_count(self, arena: SessionArena) -> nat {
        self.doc(arena).pages@.len()
    }

    /// The scan is exhausted once the row index reaches the page count.
    pub open spec fn eof_spec(self, arena: SessionArena) -> bool {
        self.rowid >= self.page_count(arena)
    }

    pub fn new() -> (c: Self)
        ensures
            c.rowid == 0,
            c.session is None,
    {
        PdfPagesCursor { rowid: 0, session: None }
    }

    /// Begin a new scan over `doc`: the cursor's previous session, if
    /// any, is released (handles into it become stale), a fresh session
    /// is opened, and the row index resets to zero.
    pub fn filter(&mut self, doc: Document, arena: &mut SessionArena)
        requires
            old(arena).wf(),
            doc.wf(),
            old(self).bound(*old(arena)),
        ensures
            final(arena).wf(),
            *final(self) == pages_after_filter(old(arena).slot_count() as usize),
            final(self).wf(*final(arena)),
            final(self).doc(*final(arena)) == doc,
            final(arena).slot_count() == old(arena).slot_count() + 1,
            match old(self).session {
                Some(s) => !final(arena).live(s as int),
                None => true,
            },
            forall|j: int|
                0 <= j < old(arena).slot_count() && old(self).session != Some(j as usize)
                    ==> final(arena).live(j) == old(arena).live(j) && (old(arena).live(j)
                        ==> final(arena).doc(j) == old(arena).doc(j)),
    {
        match self.session {
            Some(s) => arena.release(s),
            None => {},
        }
        let id = arena.register(doc);
        self.session = Some(id);
        self.rowid = 0;
    }

    /// Advance to the next page.
    pub fn next(&mut self, arena: &SessionArena)
        requires
            arena.wf(),
            old(self).wf(*arena),
            !old(self).eof_spec(*arena),
        ensures
            *final(self) == pages_step(*old(self)),
            final(self).rowid == old(self).rowid + 1,
    {
        proof {
            crate::registry::arena_docs_wf(*arena, self.session->0 as int);
        }
        self.rowid = self.rowid + 1;
    }

    /// Whether the scan is past its last page.
    pub fn eof(&self, arena: &SessionArena) -> (r: bool)
        requires
            self.wf(*arena),
        ensures
            r == self.eof_spec(*arena),
    {
        match self.session {
            Some(sid) => match arena.session(sid) {
                Some(d) => (self.rowid as usize) >= d.pages.len(),
                None => unreached(),
            },
            None => unreached(),
        }
    }

    pub fn rowid(&self) -> (r: i64)
        ensures
            r == self.rowid as i64,
    {
        self.rowid as i64
    }

    /// Project one column of the current page: declared geometry as
    /// fixed-point reals, the optional label as text or null, the
    /// page-handle column as a tagged pointer cell into this cursor's
    /// session, and the hidden document-bytes column (or an unknown
    /// index) as null. The full-text column is a directive to extract
    /// this page's text now, at this very read: the text is never held
    /// or cached by the cursor, and an extraction failure fails only
    /// this read.
    pub fn column(&self, arena: &SessionArena, i: i32) -> (r: ColumnOutput)
        requires
            arena.wf(),
            self.wf(*arena),
            !self.eof_spec(*arena),
        ensures
            ({
                let p = self.doc(*arena).pages@[self.rowid as int];
                &&& (i == 0 ==> r == ColumnOutput::Cell(Value::Real(p.width)))
                &&& (i == 1 ==> r == ColumnOutput::Cell(Value::Real(p.height)))
                &&& (i == 2 ==> match p.label {
                    Some(l) => (r matches ColumnOutput::Cell(Value::Text(t)) && t@ == l@),
                    None => r == ColumnOutput::Cell(Value::Null),
                })
                &&& (i == 3 ==> r == (ColumnOutput::ExtractPageText {
                    session: self.session->0,
                    page: self.rowid as usize,
                }))
                &&& (i == 4 ==> (r matches ColumnOutput::Cell(Value::Pointer(h)) && h.tag@
                    == page_tag_spec() && h.session == self.session->0 && h.page == self.rowid as usize))
                &&& ((i == 5 || i < 0 || i > 5) ==> r == ColumnOutput::Cell(Value::Null))
            }),
    {
        let sid = match self.session {
            Some(s) => s,
            None => unreached(),
        };
        let d = match arena.session(sid) {
            Some(d) => d,
            None => unreached(),
        };
        let page = &d.pages[self.rowid as usize];
        match column(i) {
            Some(Columns::Width) => ColumnOutput::Cell(Value::Real(page.width)),
            Some(Columns::Height) => ColumnOutput::Cell(Value::Real(page.height)),
            Some(Columns::Label) => match &page.label {
                Some(l) => ColumnOutput::Cell(Value::Text(l.clone())),
                None => ColumnOutput::Cell(Value::Null),
            },
            Some(Columns::FullText) => ColumnOutput::ExtractPageText {
                session: sid,
                page: self.rowid as usize,
            },
            Some(Columns::PagePtr) => ColumnOutput::Cell(
                Value::Pointer(PageHandle { tag: page_tag(), session: sid, page: self.rowid as usize }),
            ),
            Some(Columns::Pdf) => ColumnOutput::Cell(Value::Null),
            None => ColumnOutput::Cell(Value::Null),
        }
    }
}

/// A scan over a session with `n` pages yields exactly `n` rows, in page
/// order: after `k` advances the cursor sits at rowid `k`, so rowids are
/// strictly increasing from 0, and end-of-scan holds exactly when every
/// page has been emitted.
pub proof fn pages_scan_yields_page_count_rows(arena: SessionArena, sid: usize, k: nat)
    requires
        arena.wf(),
        arena.live(sid as int),
        k <= arena.doc(sid as int).pages@.len(),
    ensures
        pages_iterate(sid, k).rowid == k,
        pages_iterate(sid, k).session == Some(sid),
        pages_iterate(sid, k).wf(arena),
        pages_iterate(sid, k).eof_spec(arena) <==> k == arena.doc(sid as int).pages@.len(),
    decreases k,
{
    crate::registry::arena_docs_wf(arena, sid as int);
    if k > 0 {
        pages_scan_yields_page_count_rows(arena, sid, (k - 1) as nat);
    }
}

/// A handle the document table emits for its current row resolves, in
/// the same arena, to exactly that row's page: what the page-handle
/// column promises is what a child table's `filter` recovers.
pub proof fn emitted_handle_resolves(arena: SessionArena, c: PdfPagesCursor, h: PageHandle)
    requires
        arena.wf(),
        c.wf(arena),
        !c.eof_spec(arena),
        h.tag@ == page_tag_spec(),
        h.session == c.session->0,
        h.page == c.rowid as usize,
    ensures
        crate::registry::resolves(arena, h),
        crate::registry::resolved_page(arena, h) == c.doc(arena).pages@[c.rowid as int],
{
}

/// Every page of a live session has positive, bounded declared geometry,
/// so the width and height columns of every emitted row are positive.
pub proof fn page_geometry_positive(arena: SessionArena, sid: usize, i: int)
    requires
        arena.wf(),
        arena.live(sid as int),
        0 <= i < arena.doc(sid as int).pages@.len(),
    ensures
        0 < arena.doc(sid as int).pages@[i].width <= MAX_DIM_MILLIPOINTS,
        0 < arena.doc(sid as int).pages@[i].height <= MAX_DIM_MILLIPOINTS,
{
    crate::registry::arena_docs_wf(arena, sid as int);
}

} // verus!
