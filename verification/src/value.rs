//! The engine-facing typed value representation and the library's error
//! taxonomy.

use vstd::prelude::*;
use crate::registry::PageHandle;

verus! {

/// One cell of a produced row, in the engine's typed value representation.
///
/// Real-valued cells (page and object geometry) are carried in fixed point,
/// as thousandths of a point (millipoints); the unverified shell converts
/// them to the engine's 64-bit floating point when binding a result.
#[derive(Clone, PartialEq, Debug)]
pub enum Value {
    Null,
    Integer(i64),
    Real(i64),
    Text(String),
    Blob(Vec<u8>),
    /// An opaque pointer cell carrying a tagged page handle between tables.
    Pointer(PageHandle),
}

/// What one column read yields: either a finished cell, or a directive
/// to run the expensive external path now, at this very read. The
/// library never caches such a result: every read of a payload or
/// full-text column produces a fresh directive, and the shell's failure
/// to carry one out is an error fatal to that row's read alone.
#[derive(Clone, PartialEq, Debug)]
pub enum ColumnOutput {
    /// A cell the cursor computed from the document model.
    Cell(Value),
    /// Extract the full text of this page of this session now.
    ExtractPageText { session: usize, page: usize },
    /// Composite the pixels of this object of this page now, and encode
    /// them as the payload blob.
    RenderImagePayload { session: usize, page: usize, object: usize },
}

/// Everything that can go wrong inside the library's own logic.
#[derive(Clone, Copy, PartialEq, Eq, Structural, Debug)]
pub enum TableError {
    /// A pointer cell was passed under the wrong tag: an engine-level
    /// contract violation, never dereferenced.
    TagMismatch,
    /// A page handle named a session that is no longer alive (its parent
    /// cursor was re-filtered or destroyed).
    StaleSession,
    /// A page handle named a page index beyond the session's page count.
    PageOutOfRange,
    /// A page or object carried nonpositive declared geometry, or
    /// geometry too wide for the fixed-point representation.
    InvalidGeometry,
    /// The document's page count exceeds what a page index can address.
    TooManyPages,
    /// A rendered pixel buffer does not match its declared dimensions.
    MalformedBitmap,
}

} // verus!
