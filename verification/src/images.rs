//! The image table: one row per embedded raster image of one page.
//!
//! `filter` resolves a tagged page handle produced by the document table
//! and positions the cursor on the first raster-image object of that
//! page. Each advance drives the object list forward, skipping every
//! object that is not a raster image: the table is a filtered projection
//! of the page's heterogeneous object stream. The payload column
//! demands, on every access, a fresh composite of the object's pixels
//! and a fresh PNG encoding: nothing is cached, and a failure there is
//! fatal to that row's read alone.

use vstd::prelude::*;
use crate::model::{Page, PageObject};
use crate::plan::{plan_matches, plan_scan, ConstraintInfo, PlanError, ScanPlan};
use crate::registry::{resolve_error, resolve_page, resolved_page, resolves, PageHandle,
    SessionArena};
use crate::value::{ColumnOutput, TableError, Value};

verus! {

/// Index of the hidden parent-key column: the page handle.
pub const IMAGES_KEY_COLUMN: i32 = 5;

/// The schema the image table declares to the host engine.
pub open spec fn images_schema_spec() -> Seq<char> {
    "CREATE TABLE x(x, y, width, height, image, page hidden)"@
}

/// The user-visible columns of the image table, in schema order.
enum Columns {
    X,
    Y,
    Width,
    Height,
    Image,
    PagePtr,
}

fn column(index: i32) -> (r: Option<Columns>)
    ensures
        r == (if index == 0 {
            Some(Columns::X)
        } else if index == 1 {
            Some(Columns::Y)
        } else if index == 2 {
            Some(Columns::Width)
        } else if index == 3 {
            Some(Columns::Height)
        } else if index == 4 {
            Some(Columns::Image)
        } else if index == 5 {
            Some(Columns::PagePtr)
        } else {
            None
        }),
{
    match index {
        0 => Some(Columns::X),
        1 => Some(Columns::Y),
        2 => Some(Columns::Width),
        3 => Some(Columns::Height),
        4 => Some(Columns::Image),
        5 => Some(Columns::PagePtr),
        _ => None,
    }
}

/// The index of the first raster-image object at or after `from`, if any.
pub open spec fn first_match(objects: Seq<PageObject>, from: int) -> Option<int>
    decreases objects.len() - from,
    when 0 <= from <= objects.len()
{
    if from >= objects.len() {
        None
    } else if objects[from].is_image() {
        Some(from)
    } else {
        first_match(objects, from + 1)
    }
}

/// When a match exists, it is a raster image, it lies at or after the
/// scan position, and everything the scan skipped over was not one: the
/// skip-loop's selection semantics.
pub proof fn first_match_found(objects: Seq<PageObject>, from: int, i: int)
    requires
        0 <= from <= objects.len(),
        first_match(objects, from) == Some(i),
    ensures
        from <= i < objects.len(),
        objects[i].is_image(),
        forall|j: int| from <= j < i ==> !objects[j].is_image(),
    decreases objects.len() - from,
{
    if from < objects.len() && !objects[from].is_image() {
        first_match_found(objects, from + 1, i);
    }
}

/// When no match exists, nothing at or after the scan position is a
/// raster image.
pub proof fn first_match_exhausted(objects: Seq<PageObject>, from: int)
    requires
        0 <= from <= objects.len(),
        first_match(objects, from) is None,
    ensures
        forall|j: int| from <= j < objects.len() ==> !objects[j].is_image(),
    decreases objects.len() - from,
{
    if from < objects.len() {
        first_match_exhausted(objects, from + 1);
    }
}

/// The ascending indices of every raster-image object at or after
/// `from`: the subsequence of the object stream a scan yields.
pub open spec fn match_indices(objects: Seq<PageObject>, from: int) -> Seq<int>
    decreases objects.len() - from,
    when 0 <= from <= objects.len()
{
    if from >= objects.len() {
        Seq::empty()
    } else if objects[from].is_image() {
        seq![from] + match_indices(objects, from + 1)
    } else {
        match_indices(objects, from + 1)
    }
}

/// A scan yields no more rows than the page has objects.
pub proof fn lemma_match_indices_len(objects: Seq<PageObject>, from: int)
    requires
        0 <= from <= objects.len(),
    ensures
        match_indices(objects, from).len() <= objects.len() - from,
    decreases objects.len() - from,
{
    if from < objects.len() {
        lemma_match_indices_len(objects, from + 1);
    }
}

/// `match_indices` starts with the first match and continues after it.
proof fn lemma_match_indices_head(objects: Seq<PageObject>, from: int)
    requires
        0 <= from <= objects.len(),
    ensures
        first_match(objects, from) is None ==> match_indices(objects, from) == Seq::<int>::empty(),
        first_match(objects, from) matches Some(i) ==> match_indices(objects, from) == seq![i]
            + match_indices(objects, i + 1),
    decreases objects.len() - from,
{
    if from >= objects.len() {
        assert(match_indices(objects, from) =~= Seq::<int>::empty());
    } else if !objects[from].is_image() {
        lemma_match_indices_head(objects, from + 1);
    }
}

/// The image virtual table.
pub struct PdfImagesTable {}

impl PdfImagesTable {
    /// Declare the table's schema to the host.
    pub fn connect() -> (r: (String, PdfImagesTable))
        ensures
            r.0@ == images_schema_spec(),
    {
        ("CREATE TABLE x(x, y, width, height, image, page hidden)".to_owned(), PdfImagesTable {})
    }

    pub fn destroy(&self) -> (r: Result<(), TableError>)
        ensures
            r is Ok,
    {
        Ok(())
    }

    /// Accept or reject a proposed scan plan: the hidden page-handle
    /// column must carry a usable equality constraint.
    pub fn best_index(&self, constraints: &Vec<ConstraintInfo>) -> (r: Result<ScanPlan, PlanError>)
        ensures
            plan_matches(constraints@, IMAGES_KEY_COLUMN, r),
    {
        plan_scan(constraints, IMAGES_KEY_COLUMN)
    }

    pub fn open(&self) -> (c: PdfImagesCursor)
        ensures
            c == PdfImagesCursor::initial(),
    {
        PdfImagesCursor::new()
    }
}

/// Per-scan cursor over the raster-image objects of one page.
pub struct PdfImagesCursor {
    /// Row ordinal: reset by `filter`, bumped by every advance.
    pub rowid: i64,
    /// The arena session the parent handle named.
    pub session: Option<usize>,
    /// The page index within that session.
    pub page: Option<usize>,
    /// Index of the next object the skip-loop will examine.
    pub pos: usize,
    /// Index of the current raster-image object, or none once exhausted.
    pub current: Option<usize>,
}

/// One advance of the image cursor over `objects`: bump the row ordinal,
/// then move to the next raster-image object, or to exhaustion.
pub open spec fn images_step(c: PdfImagesCursor, objects: Seq<PageObject>) -> PdfImagesCursor {
    match first_match(objects, c.pos as int) {
        Some(i) => PdfImagesCursor {
            rowid: (c.rowid + 1) as i64,
            session: c.session,
            page: c.page,
            pos: (i + 1) as usize,
            current: Some(i as usize),
        },
        None => PdfImagesCursor {
            rowid: (c.rowid + 1) as i64,
            session: c.session,
            page: c.page,
            pos: objects.len() as usize,
            current: None,
        },
    }
}

/// The cursor state immediately after `filter` resolved its handle to
/// `page`: positioned on the page's first raster image, or exhausted.
pub open spec fn images_after_filter(sid: usize, pidx: usize, page: Page) -> PdfImagesCursor {
    images_step(
        PdfImagesCursor { rowid: 0, session: Some(sid), page: Some(pidx), pos: 0, current: None },
        page.objects@,
    )
}

/// The cursor state after `filter` and `k` further advances.
pub open spec fn images_iterate(c: PdfImagesCursor, objects: Seq<PageObject>, k: nat) -> PdfImagesCursor
    decreases k,
{
    if k == 0 {
        c
    } else {
        images_step(images_iterate(c, objects, (k - 1) as nat), objects)
    }
}

impl PdfImagesCursor {
    /// The state `open` returns: unfiltered, not yet scannable.
    pub open spec fn initial() -> PdfImagesCursor {
        PdfImagesCursor { rowid: 0, session: None, page: None, pos: 0, current: None }
    }

    /// The cursor has been filtered, its session is alive, and its scan
    /// position is consistent with the page's object list.
    pub open spec fn wf(self, arena: SessionArena) -> bool {
        &&& self.session matches Some(s) && arena.live(s as int)
        &&& self.page matches Some(p) && p < arena.doc(self.session->0 as int).pages@.len()
        &&& self.pos <= self.objects_of(arena).len()
        &&& match self.current {
            Some(i) => i < self.objects_of(arena).len() && self.objects_of(arena)[i as int].is_image()
                && self.pos == i + 1,
            None => true,
        }
    }

    /// The object list of the page this cursor scans.
    pub open spec fn objects_of(self, arena: SessionArena) -> Seq<PageObject> {
        arena.doc(self.session->0 as int).pages@[self.page->0 as int].objects@
    }

    pub fn new() -> (c: Self)
        ensures
            c == PdfImagesCursor::initial(),
    {
        PdfImagesCursor { rowid: 0, session: None, page: None, pos: 0, current: None }
    }

    /// Begin a new scan: recover the typed page reference behind the
    /// opaque handle (rejecting a foreign tag, a released session, or a
    /// page index out of range), reset the row ordinal, and advance to
    /// the first raster image. A failed resolution leaves the cursor
    /// unchanged.
    pub fn filter(&mut self, h: &PageHandle, arena: &SessionArena) -> (r: Result<(), TableError>)
        requires
            arena.wf(),
        ensures
            match r {
                Ok(()) => resolves(*arena, *h) && *final(self) == images_after_filter(
                    h.session,
                    h.page,
                    resolved_page(*arena, *h),
                ) && final(self).wf(*arena),
                Err(e) => !resolves(*arena, *h) && resolve_error(*arena, *h, e) && *final(self)
                    == *old(self),
            },
    {
        match resolve_page(arena, h) {
            Err(e) => Err(e),
            Ok(_page) => {
                self.session = Some(h.session);
                self.page = Some(h.page);
                self.pos = 0;
                self.current = None;
                self.rowid = 0;
                self.next(arena);
                Ok(())
            },
        }
    }

    /// Advance: bump the row ordinal, then drive the object list forward
    /// past every non-image object until the next raster image or the end
    /// of the list.
    pub fn next(&mut self, arena: &SessionArena)
        requires
            arena.wf(),
            old(self).wf(*arena),
            old(self).rowid < i64::MAX,
        ensures
            *final(self) == images_step(*old(self), old(self).objects_of(*arena)),
            final(self).wf(*arena),
    {
        self.rowid = self.rowid + 1;
        let sid = match self.session {
            Some(s) => s,
            None => unreached(),
        };
        let pidx = match self.page {
            Some(p) => p,
            None => unreached(),
        };
        let d = match arena.session(sid) {
            Some(d) => d,
            None => unreached(),
        };
        let objects = &d.pages[pidx].objects;
        let n = objects.len();
        let ghost start = self.pos as int;
        let mut j: usize = self.pos;
        while j < n && !obj_is_image(&objects[j])
            invariant
                n == objects@.len(),
                start <= j <= n,
                first_match(objects@, start) == first_match(objects@, j as int),
            decreases n - j,
        {
            proof {
                assert(first_match(objects@, j as int) == first_match(objects@, j + 1));
            }
            j = j + 1;
        }
        if j < n {
            self.current = Some(j);
            self.pos = j + 1;
        } else {
            self.current = None;
            self.pos = n;
        }
    }

    /// Whether the skip-loop exhausted the object list without a match.
    pub fn eof(&self) -> (r: bool)
        ensures
            r == (self.current is None),
    {
        match self.current {
            Some(_) => false,
            None => true,
        }
    }

    pub fn rowid(&self) -> (r: i64)
        ensures
            r == self.rowid,
    {
        self.rowid
    }

    /// Project one column of the current raster image: its bounds as
    /// fixed-point reals, and the hidden page-handle column (or an
    /// unknown index) as null. The payload column is a directive to
    /// composite this object's pixels now, at this very read, and encode
    /// them with `encode_payload_png`: nothing is cached across reads of
    /// the same row, and a render or encode failure fails only this
    /// read.
    pub fn column(&self, arena: &SessionArena, i: i32) -> (r: ColumnOutput)
        requires
            arena.wf(),
            self.wf(*arena),
            self.current is Some,
        ensures
            ({
                let img = self.objects_of(*arena)[self.current->0 as int]->Image_0;
                &&& (i == 0 ==> r == ColumnOutput::Cell(Value::Real(img.bounds.left)))
                &&& (i == 1 ==> r == ColumnOutput::Cell(Value::Real(img.bounds.top)))
                &&& (i == 2 ==> r == ColumnOutput::Cell(Value::Real(img.bounds.width)))
                &&& (i == 3 ==> r == ColumnOutput::Cell(Value::Real(img.bounds.height)))
                &&& (i == 4 ==> r == (ColumnOutput::RenderImagePayload {
                    session: self.session->0,
                    page: self.page->0,
                    object: self.current->0,
                }))
                &&& ((i == 5 || i < 0 || i > 5) ==> r == ColumnOutput::Cell(Value::Null))
            }),
    {
        let sid = match self.session {
            Some(s) => s,
            None => unreached(),
        };
        let pidx = match self.page {
            Some(p) => p,
            None => unreached(),
        };
        let d = match arena.session(sid) {
            Some(d) => d,
            None => unreached(),
        };
        let cur = match self.current {
            Some(c) => c,
            None => unreached(),
        };
        let img = match &d.pages[pidx].objects[cur] {
            PageObject::Image(img) => img,
            _ => unreached(),
        };
        match column(i) {
            Some(Columns::X) => ColumnOutput::Cell(Value::Real(img.bounds.left)),
            Some(Columns::Y) => ColumnOutput::Cell(Value::Real(img.bounds.top)),
            Some(Columns::Width) => ColumnOutput::Cell(Value::Real(img.bounds.width)),
            Some(Columns::Height) => ColumnOutput::Cell(Value::Real(img.bounds.height)),
            Some(Columns::Image) => ColumnOutput::RenderImagePayload {
                session: sid,
                page: pidx,
                object: cur,
            },
            Some(Columns::PagePtr) => ColumnOutput::Cell(Value::Null),
            None => ColumnOutput::Cell(Value::Null),
        }
    }
}

/// Helper: whether one object is of the subtype this table yields.
fn obj_is_image(o: &PageObject) -> (r: bool)
    ensures
        r == o.is_image(),
{
    match o {
        PageObject::Image(_) => true,
        _ => false,
    }
}

/// A scan over a page with no raster-image object is exhausted by the
/// initial advance of `filter`: end-of-scan is immediate and the scan's
/// row sequence is empty.
pub proof fn empty_scan_on_page_without_images(sid: usize, pidx: usize, page: Page)
    requires
        forall|i: int| 0 <= i < page.objects@.len() ==> !page.objects@[i].is_image(),
    ensures
        images_after_filter(sid, pidx, page).current is None,
        match_indices(page.objects@, 0) == Seq::<int>::empty(),
{
    if first_match(page.objects@, 0) is Some {
        let i = first_match(page.objects@, 0)->0;
        first_match_found(page.objects@, 0, i);
    }
    lemma_match_indices_head(page.objects@, 0);
}

/// The scan enumerates exactly the raster-image subsequence of the
/// page's object stream, in order: after `filter` and `k` advances the
/// cursor sits on the `k`-th matching object with row ordinal `k + 1`,
/// and it is exhausted precisely once every matching object has been
/// yielded — no row skipped, none repeated, none invented.
pub proof fn scan_enumerates_matching_objects(sid: usize, pidx: usize, page: Page, k: nat)
    requires
        page.objects@.len() <= usize::MAX,
        page.objects@.len() < i64::MAX,
        k <= match_indices(page.objects@, 0).len(),
    ensures
        ({
            let state = images_iterate(images_after_filter(sid, pidx, page), page.objects@, k);
            let ms = match_indices(page.objects@, 0);
            &&& state.rowid == k + 1
            &&& k < ms.len() ==> ({
                let m = ms[k as int];
                &&& state.current == Some(m as usize)
                &&& state.pos == m + 1
                &&& 0 <= m < page.objects@.len()
                &&& match_indices(page.objects@, m + 1) == ms.skip(k + 1 as int)
            })
            &&& k == ms.len() ==> state.current is None
        }),
    decreases k,
{
    let objects = page.objects@;
    let ms = match_indices(objects, 0);
    lemma_match_indices_len(objects, 0);
    if k == 0 {
        lemma_match_indices_head(objects, 0);
        match first_match(objects, 0) {
            None => {},
            Some(i) => {
                first_match_found(objects, 0, i);
                lemma_cons_skip(ms, i, match_indices(objects, i + 1));
            },
        }
    } else {
        scan_enumerates_matching_objects(sid, pidx, page, (k - 1) as nat);
        let p = ms[k - 1] + 1;
        let sk = ms.skip(k as int);
        assert(match_indices(objects, p) == sk);
        lemma_match_indices_head(objects, p);
        match first_match(objects, p) {
            None => {
                assert(sk.len() == 0);
            },
            Some(i) => {
                first_match_found(objects, p, i);
                lemma_cons_skip(sk, i, match_indices(objects, i + 1));
                assert(sk[0] == ms[k as int]);
                assert(sk.skip(1) =~= ms.skip(k + 1 as int));
                assert(match_indices(objects, i + 1) == ms.skip(k + 1 as int));
            },
        }
    }
}

/// A sequence that starts with `head` and continues with `tail` has
/// `tail` as everything past its first element.
proof fn lemma_cons_skip(s: Seq<int>, head: int, tail: Seq<int>)
    requires
        s == seq![head] + tail,
    ensures
        s.len() == tail.len() + 1,
        s[0] == head,
        tail =~= s.skip(1),
{
    assert forall|t: int| 0 <= t < tail.len() implies tail[t] == s.skip(1)[t] by {
        assert(s[t + 1] == (seq![head] + tail)[t + 1]);
    }
}

/// Re-filtering with the same parent handle resolves to the same page and
/// therefore reproduces the same cursor state at every step: the whole
/// row sequence of a scan is a function of the resolved page alone.
pub proof fn refilter_yields_identical_scan(
    c1: PdfImagesCursor,
    c2: PdfImagesCursor,
    sid: usize,
    pidx: usize,
    page: Page,
    k: nat,
)
    requires
        c1 == images_after_filter(sid, pidx, page),
        c2 == images_after_filter(sid, pidx, page),
    ensures
        images_iterate(c1, page.objects@, k) == images_iterate(c2, page.objects@, k),
{
}

} // verus!
