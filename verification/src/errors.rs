//! The failure kinds of the store and their rendering.
//!
//! Every failure is one of three kinds: the application-data directory could
//! not be located or created, an existing file could not be read, or the file
//! could not be written. No failure is retried; each is rendered as a
//! human-readable string and handed to the caller of the operation.

use vstd::prelude::*;
use vstd::string::StringExecFns;

verus! {

/// A failure of a store operation. Each variant carries the description of
/// the underlying condition, as the host reported it.
pub enum StoreError {
    /// The application-data directory could not be determined or created.
    PathResolution(String),
    /// The file exists but could not be read in full.
    IoRead(String),
    /// The file could not be created, truncated or written in full.
    IoWrite(String),
}

/// The fixed prefix under which each failure kind is rendered.
pub open spec fn error_prefix_view(e: StoreError) -> Seq<char> {
    match e {
        StoreError::PathResolution(_) => "path resolution failed: "@,
        StoreError::IoRead(_) => "read failed: "@,
        StoreError::IoWrite(_) => "write failed: "@,
    }
}

/// The detail a failure carries.
pub open spec fn error_detail_view(e: StoreError) -> Seq<char> {
    match e {
        StoreError::PathResolution(d) => d@,
        StoreError::IoRead(d) => d@,
        StoreError::IoWrite(d) => d@,
    }
}

/// How a failure is rendered: its kind's prefix followed by its detail.
pub open spec fn describe_view(e: StoreError) -> Seq<char> {
    error_prefix_view(e) + error_detail_view(e)
}

impl StoreError {
    /// Renders the failure as a human-readable string. The result is never
    /// empty, whatever detail the failure carries.
    pub fn describe(&self) -> (r: String)
        ensures
            r@ == describe_view(*self),
            r@.len() > 0,
    {
        proof {
            reveal_strlit("path resolution failed: ");
            reveal_strlit("read failed: ");
            reveal_strlit("write failed: ");
        }
        match self {
            StoreError::PathResolution(d) => {
                let mut r = String::from_str("path resolution failed: ");
                r.append(d.as_str());
                r
            },
            StoreError::IoRead(d) => {
                let mut r = String::from_str("read failed: ");
                r.append(d.as_str());
                r
            },
            StoreError::IoWrite(d) => {
                let mut r = String::from_str("write failed: ");
                r.append(d.as_str());
                r
            },
        }
    }
}

} // verus!
