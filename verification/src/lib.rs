//! Verified core of a SQLite virtual-table extension that exposes the
//! structure of a PDF document (pages, embedded raster images, annotations)
//! as queryable tables, plus a page-thumbnail scalar function.
//!
//! The sqlite FFI glue and the pdfium calls live outside this crate's
//! verified code; this library holds the constraint planner, the session
//! arena with tagged page handles, the three cursor state machines over a
//! plain document model, and the PNG re-encoding of image payloads.

pub mod annotations;
pub mod images;
pub mod model;
pub mod pages;
pub mod plan;
pub mod registry;
pub mod render;
pub mod value;
