//! The document store: read with default-on-missing, write as full overwrite.
//!
//! The slice of the world the store touches is modelled by [`DiskModel`]:
//! whether the application-data directory exists, and the contents of the
//! document file under it, if any. Each operation first resolves the path,
//! which creates the directory if it is absent; a read then returns the
//! file's contents, or the fixed default document when no file exists, and a
//! write replaces the file's contents in full.
//!
//! The host performs the actual filesystem calls and hands their outcomes to
//! the decision functions [`read_reply`] and [`write_reply`], which are
//! verified for every outcome. [`MemStore`] carries the same logic over an
//! in-memory state, so the store's behaviour can be exercised without a host.

use vstd::prelude::*;
use crate::document::default_document_view;
use crate::document::default_document;
use crate::errors::StoreError;
use crate::errors::describe_view;

verus! {

/// The state the store touches: the application-data directory and the
/// document file under it. `file` is the full contents of the file, or
/// `None` while no file exists.
pub struct DiskModel {
    pub dir_exists: bool,
    pub file: Option<Seq<char>>,
}

/// Resolving the storage path ensures the application-data directory exists
/// and touches nothing else. Creating an existing directory is a no-op.
pub open spec fn resolve_step(d: DiskModel) -> DiskModel {
    DiskModel { dir_exists: true, file: d.file }
}

/// What a successful read returns: the file's contents, or the fixed default
/// document while no file exists. Reading never creates the file.
pub open spec fn read_result(d: DiskModel) -> Seq<char> {
    match d.file {
        None => default_document_view(),
        Some(c) => c,
    }
}

/// What a successful write leaves behind: the directory exists and the file
/// holds exactly the new content, whatever was there before.
pub open spec fn write_step(d: DiskModel, content: Seq<char>) -> DiskModel {
    DiskModel { dir_exists: true, file: Some(content) }
}

/// What a read returns for a given probe of the file: the contents found, or
/// the fixed default document when no file was found.
pub open spec fn read_found_view(found: Option<String>) -> Seq<char> {
    match found {
        None => default_document_view(),
        Some(c) => c@,
    }
}

/// The read operation's reply, given the outcome of the host's filesystem
/// work: `probe` is `Ok(None)` when the path resolved and no file exists
/// there, `Ok(Some(c))` when the file was read in full as `c`, and `Err`
/// when resolution or the read itself failed. The reply carries the contents
/// found, the fixed default document, or the rendered failure; a failure is
/// never silently swallowed.
pub fn read_reply(probe: Result<Option<String>, StoreError>) -> (r: Result<String, String>)
    ensures
        probe is Ok <==> r is Ok,
        probe is Ok ==> r->Ok_0@ == read_found_view(probe->Ok_0),
        probe is Err ==> r->Err_0@ == describe_view(probe->Err_0) && r->Err_0@.len() > 0,
{
    match probe {
        Ok(None) => Ok(default_document()),
        Ok(Some(c)) => Ok(c),
        Err(e) => Err(e.describe()),
    }
}

/// The write operation's reply, given the outcome of the host's filesystem
/// work: `outcome` is `Ok` when the path resolved and the content was
/// written in full, and `Err` when resolution or the write failed. A failure
/// is rendered with a never-empty description; success carries nothing.
pub fn write_reply(outcome: Result<(), StoreError>) -> (r: Result<(), String>)
    ensures
        outcome is Ok <==> r is Ok,
        outcome is Err ==> r->Err_0@ == describe_view(outcome->Err_0) && r->Err_0@.len() > 0,
{
    match outcome {
        Ok(()) => Ok(()),
        Err(e) => Err(e.describe()),
    }
}

/// Default-on-missing: while no document file exists, a read returns exactly
/// the fixed default document, and the read creates no file.
pub proof fn lemma_default_on_missing(d: DiskModel)
    requires
        d.file is None,
    ensures
        read_result(d) == default_document_view(),
        resolve_step(d).file is None,
{
}

/// Write-then-read round trip: after a write of content `s`, whatever the
/// prior state of the directory and the file, a read returns exactly `s`.
pub proof fn lemma_write_then_read(d: DiskModel, s: Seq<char>)
    ensures
        read_result(write_step(d, s)) == s,
{
}

/// Idempotent directory creation: resolving the path while the directory
/// already exists changes nothing, and resolving twice in a row leaves the
/// same state as resolving once.
pub proof fn lemma_resolve_idempotent(d: DiskModel)
    ensures
        d.dir_exists ==> resolve_step(d) == d,
        resolve_step(resolve_step(d)) == resolve_step(d),
{
}

/// Overwrite semantics: after writing content `a` and then content `b`, a
/// read returns exactly `b`, with no trace of `a`.
pub proof fn lemma_overwrite(d: DiskModel, a: Seq<char>, b: Seq<char>)
    ensures
        read_result(write_step(write_step(d, a), b)) == b,
{
}

/// Missing-directory bootstrap: whether or not any of the directory chain
/// existed before, either operation leaves the directory in place.
pub proof fn lemma_bootstrap(d: DiskModel, s: Seq<char>)
    ensures
        resolve_step(d).dir_exists,
        write_step(d, s).dir_exists,
{
}

/// The store's logic over an in-memory state: the same decisions the store
/// makes against the filesystem, acting on a value of this type instead, so
/// that its behaviour can be exercised without a host.
pub struct MemStore {
    pub dir_exists: bool,
    pub file: Option<String>,
}

impl View for MemStore {
    type V = DiskModel;

    open spec fn view(&self) -> DiskModel {
        DiskModel {
            dir_exists: self.dir_exists,
            file: match self.file {
                None => None,
                Some(c) => Some(c@),
            },
        }
    }
}

impl MemStore {
    /// A fresh state: no application-data directory and no document file.
    pub fn new() -> (r: MemStore)
        ensures
            r@ == (DiskModel { dir_exists: false, file: None::<Seq<char>> }),
    {
        MemStore { dir_exists: false, file: None }
    }

    /// Resolves the storage path: creates the directory if it is absent and
    /// leaves the file as it is.
    pub fn resolve(&mut self)
        ensures
            final(self)@ == resolve_step(old(self)@),
    {
        self.dir_exists = true;
    }

    /// Reads the document: resolves the path, then returns the file's
    /// contents, or the fixed default document while no file exists. The
    /// file itself is never created or changed by a read.
    pub fn read_document(&mut self) -> (r: String)
        ensures
            final(self)@ == resolve_step(old(self)@),
            r@ == read_result(old(self)@),
    {
        self.resolve();
        match &self.file {
            None => default_document(),
            Some(c) => c.clone(),
        }
    }

    /// Writes the document: resolves the path, then replaces the file's
    /// contents in full with `content`, creating the file if it is absent.
    pub fn write_document(&mut self, content: String)
        ensures
            final(self)@ == write_step(old(self)@, content@),
    {
        self.resolve();
        self.file = Some(content);
    }
}

} // verus!
