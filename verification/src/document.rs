//! The persisted document and its fixed default.
//!
//! The document is an opaque UTF-8 text blob; nothing here parses it. The
//! default document is the value a read yields while no file exists yet: an
//! empty trade list plus five fixed category descriptors. It is only ever
//! returned to the caller, never written to disk.

use vstd::prelude::*;
use vstd::string::StringExecFns;

verus! {

/// The contents of the fixed default document, as a sequence of characters.
pub open spec fn default_document_view() -> Seq<char> {
    "{\n  \"trades\": [],\n  \"categories\": [\n    { \"id\": \"all\", \"name\": \"전체\", \"description\": \"모든 매매 기록\" },\n    { \"id\": \"profit\", \"name\": \"익절\", \"description\": \"수익 발생 매매\" },\n    { \"id\": \"loss\", \"name\": \"손절\", \"description\": \"손실 발생 매매\" },\n    { \"id\": \"recent\", \"name\": \"최근\", \"description\": \"최근 5개 매매\" },\n    { \"id\": \"dashboard\", \"name\": \"대시보드\", \"description\": \"통계 대시보드\" }\n  ]\n}"@
}

/// The fixed default document: an empty trade list and the five category
/// descriptors `all`, `profit`, `loss`, `recent` and `dashboard`.
pub fn default_document() -> (r: String)
    ensures
        r@ == default_document_view(),
{
    String::from_str("{\n  \"trades\": [],\n  \"categories\": [\n    { \"id\": \"all\", \"name\": \"전체\", \"description\": \"모든 매매 기록\" },\n    { \"id\": \"profit\", \"name\": \"익절\", \"description\": \"수익 발생 매매\" },\n    { \"id\": \"loss\", \"name\": \"손절\", \"description\": \"손실 발생 매매\" },\n    { \"id\": \"recent\", \"name\": \"최근\", \"description\": \"최근 5개 매매\" },\n    { \"id\": \"dashboard\", \"name\": \"대시보드\", \"description\": \"통계 대시보드\" }\n  ]\n}")
}

/// The fixed name of the persisted file, as a sequence of characters.
pub open spec fn file_name_view() -> Seq<char> {
    "trades.json"@
}

/// The fixed name of the persisted file within the application-data
/// directory.
pub fn file_name() -> (r: String)
    ensures
        r@ == file_name_view(),
{
    String::from_str("trades.json")
}

/// The path of the persisted document under a given application-data
/// directory: the directory, a separator, and the fixed file name.
pub fn storage_path(dir: &str) -> (r: String)
    ensures
        r@ == dir@ + "/"@ + file_name_view(),
{
    let mut r = String::from_str(dir);
    r.append("/");
    r.append("trades.json");
    r
}

} // verus!
