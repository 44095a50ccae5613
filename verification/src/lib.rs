//! A minimal persistence backend for a desktop trading journal: it reads a
//! JSON document of trade records from a per-user application-data directory
//! and overwrites that document with caller-supplied content. When the
//! document does not exist yet, reading yields a fixed default document
//! without touching the disk.
//!
//! The filesystem itself is driven by the hosting application; this crate
//! holds the verified logic: the default document, the path computation, the
//! error kinds with their rendering, and the decision rules of the read and
//! write operations, stated and proved over a model of the on-disk state.

pub mod document;
pub mod errors;
pub mod store;
