//! Session arena and tagged page handles.
//!
//! The document table owns a parsed document for the duration of one scan
//! and lends each row a handle to one of its pages. The engine carries
//! that handle to a child table as an opaque pointer cell. Instead of a
//! raw address, a handle names a slot of this arena, so that using a
//! handle after its parent cursor was re-filtered or destroyed is a
//! checked lookup failure, never a dangling dereference. A private tag
//! guards against a pointer cell of some other producer being passed
//! here: a mismatched tag is rejected, never interpreted.

use vstd::prelude::*;
use crate::model::{Document, Page};
use crate::value::TableError;

verus! {

/// The tag under which the document table publishes its page handles:
/// the private contract between producer and consumer tables.
pub open spec fn page_tag_spec() -> Seq<u8> {
    seq![119u8, 117u8, 116u8, 0u8]
}

/// The byte form of the page-handle tag (the NUL-terminated string the
/// engine's pointer protocol expects).
pub fn page_tag() -> (t: Vec<u8>)
    ensures
        t@ == page_tag_spec(),
{
    let mut t: Vec<u8> = Vec::new();
    t.push(119);
    t.push(117);
    t.push(116);
    t.push(0);
    proof {
        assert(t@ =~= page_tag_spec());
    }
    t
}

/// An opaque reference to one page of one live document session, passed
/// between tables as a pointer cell.
#[derive(Clone, PartialEq, Debug)]
pub struct PageHandle {
    pub tag: Vec<u8>,
    pub session: usize,
    pub page: usize,
}

/// Owns every live document session. One slot per session; releasing a
/// session leaves its slot empty, so stale handles fail their lookup.
pub struct SessionArena {
    slots: Vec<Option<Document>>,
}

impl SessionArena {
    /// Every live session holds a well-formed document.
    pub closed spec fn wf(self) -> bool {
        forall|i: int| 0 <= i < self.slots@.len() && self.slots@[i] is Some
            ==> self.slots@[i]->0.wf()
    }

    pub closed spec fn slot_count(self) -> nat {
        self.slots@.len()
    }

    /// Whether session `id` is currently alive.
    pub closed spec fn live(self, id: int) -> bool {
        0 <= id < self.slots@.len() && self.slots@[id] is Some
    }

    /// The document of live session `id`.
    pub closed spec fn doc(self, id: int) -> Document {
        self.slots@[id]->0
    }

    pub fn new() -> (a: SessionArena)
        ensures
            a.wf(),
            a.slot_count() == 0,
    {
        SessionArena { slots: Vec::new() }
    }

    /// Move a validated document into a fresh session slot and return the
    /// session id. Existing sessions keep their ids.
    pub fn register(&mut self, doc: Document) -> (id: usize)
        requires
            old(self).wf(),
            doc.wf(),
        ensures
            final(self).wf(),
            id == old(self).slot_count(),
            final(self).slot_count() == old(self).slot_count() + 1,
            final(self).live(id as int),
            final(self).doc(id as int) == doc,
            forall|j: int| 0 <= j < old(self).slot_count()
                ==> final(self).live(j) == old(self).live(j)
                    && (old(self).live(j) ==> final(self).doc(j) == old(self).doc(j)),
    {
        let id = self.slots.len();
        self.slots.push(Some(doc));
        id
    }

    /// End session `id`: its slot is emptied, so every handle into it is
    /// stale from now on. Other sessions are untouched.
    pub fn release(&mut self, id: usize)
        requires
            old(self).wf(),
            id < old(self).slot_count(),
        ensures
            final(self).wf(),
            final(self).slot_count() == old(self).slot_count(),
            !final(self).live(id as int),
            forall|j: int| 0 <= j < old(self).slot_count() && j != id
                ==> final(self).live(j) == old(self).live(j)
                    && (old(self).live(j) ==> final(self).doc(j) == old(self).doc(j)),
    {
        self.slots.set(id, None);
    }

    /// Look up a live session's document.
    pub fn session<'a>(&'a self, id: usize) -> (r: Option<&'a Document>)
        ensures
            match r {
                Some(d) => self.live(id as int) && *d == self.doc(id as int),
                None => !self.live(id as int),
            },
    {
        if id < self.slots.len() {
            match &self.slots[id] {
                Some(d) => Some(d),
                None => None,
            }
        } else {
            None
        }
    }
}

/// In a well-formed arena, every live session's document is well formed.
pub proof fn arena_docs_wf(arena: SessionArena, id: int)
    requires
        arena.wf(),
        arena.live(id),
    ensures
        arena.doc(id).wf(),
{
}

/// Byte-wise comparison of a handle's tag against the expected tag.
fn tag_matches(tag: &Vec<u8>) -> (r: bool)
    ensures
        r == (tag@ == page_tag_spec()),
{
    if tag.len() != 4 {
        proof {
            assert(tag@ != page_tag_spec());
        }
        return false;
    }
    let ok = tag[0] == 119 && tag[1] == 117 && tag[2] == 116 && tag[3] == 0;
    proof {
        if ok {
            assert(tag@ =~= page_tag_spec());
        } else {
            assert(tag@ != page_tag_spec());
        }
    }
    ok
}

/// What a successful handle resolution means: the tag matched, the
/// session is alive, and the page index is within the document.
pub open spec fn resolves(arena: SessionArena, h: PageHandle) -> bool {
    &&& h.tag@ == page_tag_spec()
    &&& arena.live(h.session as int)
    &&& h.page < arena.doc(h.session as int).pages@.len()
}

/// The page a resolving handle names.
pub open spec fn resolved_page(arena: SessionArena, h: PageHandle) -> Page {
    arena.doc(h.session as int).pages@[h.page as int]
}

/// Which resolution failure `e` reports about handle `h`, exactly.
pub open spec fn resolve_error(arena: SessionArena, h: PageHandle, e: TableError) -> bool {
    match e {
        TableError::TagMismatch => h.tag@ != page_tag_spec(),
        TableError::StaleSession => h.tag@ == page_tag_spec() && !arena.live(h.session as int),
        TableError::PageOutOfRange => h.tag@ == page_tag_spec() && arena.live(h.session as int)
            && h.page >= arena.doc(h.session as int).pages@.len(),
        _ => false,
    }
}

/// Recover the typed page reference behind an opaque handle, checking the
/// tag, the session's liveness, and the page index, in that order.
pub fn resolve_page<'a>(arena: &'a SessionArena, h: &PageHandle) -> (r: Result<
    &'a Page,
    TableError,
>)
    ensures
        match r {
            Ok(p) => resolves(*arena, *h) && *p == resolved_page(*arena, *h),
            Err(e) => !resolves(*arena, *h) && resolve_error(*arena, *h, e),
        },
{
    if !tag_matches(&h.tag) {
        return Err(TableError::TagMismatch);
    }
    match arena.session(h.session) {
        None => Err(TableError::StaleSession),
        Some(d) => {
            if h.page < d.pages.len() {
                Ok(&d.pages[h.page])
            } else {
                Err(TableError::PageOutOfRange)
            }
        },
    }
}

} // verus!
