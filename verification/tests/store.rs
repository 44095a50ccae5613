use trade_store::document::default_document;
use trade_store::document::file_name;
use trade_store::document::storage_path;
use trade_store::errors::StoreError;
use trade_store::store::read_reply;
use trade_store::store::write_reply;
use trade_store::store::MemStore;

const EXPECTED_DEFAULT: &str = "{\n  \"trades\": [],\n  \"categories\": [\n    { \"id\": \"all\", \"name\": \"전체\", \"description\": \"모든 매매 기록\" },\n    { \"id\": \"profit\", \"name\": \"익절\", \"description\": \"수익 발생 매매\" },\n    { \"id\": \"loss\", \"name\": \"손절\", \"description\": \"손실 발생 매매\" },\n    { \"id\": \"recent\", \"name\": \"최근\", \"description\": \"최근 5개 매매\" },\n    { \"id\": \"dashboard\", \"name\": \"대시보드\", \"description\": \"통계 대시보드\" }\n  ]\n}";

#[test]
fn default_document_exact_value() {
    assert_eq!(default_document(), EXPECTED_DEFAULT);
}

#[test]
fn file_name_is_trades_json() {
    assert_eq!(file_name(), "trades.json");
}

#[test]
fn storage_path_appends_file_name() {
    assert_eq!(
        storage_path("/home/user/.local/share/app"),
        "/home/user/.local/share/app/trades.json"
    );
    assert_eq!(storage_path(""), "/trades.json");
}

#[test]
fn default_on_missing_returns_default_and_creates_no_file() {
    let mut store = MemStore::new();
    let doc = store.read_document();
    assert_eq!(doc, EXPECTED_DEFAULT);
    assert!(store.file.is_none());
    let again = store.read_document();
    assert_eq!(again, EXPECTED_DEFAULT);
    assert!(store.file.is_none());
}

#[test]
fn write_then_read_round_trip() {
    let mut store = MemStore::new();
    let content = "{\"trades\": [1, 2, 3], \"categories\": []}";
    store.write_document(content.to_string());
    assert_eq!(store.read_document(), content);
}

#[test]
fn write_then_read_round_trip_unicode() {
    let mut store = MemStore::new();
    store.write_document("기록 — records ✓".to_string());
    assert_eq!(store.read_document(), "기록 — records ✓");
}

#[test]
fn write_then_read_round_trip_empty() {
    let mut store = MemStore::new();
    store.write_document(String::new());
    assert_eq!(store.read_document(), "");
}

#[test]
fn repeated_operations_are_idempotent_on_the_directory() {
    let mut store = MemStore::new();
    store.resolve();
    assert!(store.dir_exists);
    store.resolve();
    assert!(store.dir_exists);
    store.write_document("x".to_string());
    let before = store.file.clone();
    let _ = store.read_document();
    let _ = store.read_document();
    assert!(store.dir_exists);
    assert_eq!(store.file, before);
}

#[test]
fn overwrite_leaves_no_residue() {
    let mut store = MemStore::new();
    store.write_document("a much longer first document body".to_string());
    store.write_document("short".to_string());
    assert_eq!(store.read_document(), "short");
}

#[test]
fn missing_directory_bootstrap() {
    let mut reader = MemStore::new();
    assert!(!reader.dir_exists);
    let _ = reader.read_document();
    assert!(reader.dir_exists);

    let mut writer = MemStore::new();
    assert!(!writer.dir_exists);
    writer.write_document("{}".to_string());
    assert!(writer.dir_exists);
    assert_eq!(writer.file.as_deref(), Some("{}"));
}

#[test]
fn read_reply_found_content_is_returned_verbatim() {
    let r = read_reply(Ok(Some("stored".to_string())));
    assert_eq!(r, Ok("stored".to_string()));
}

#[test]
fn read_reply_missing_file_yields_default() {
    let r = read_reply(Ok(None));
    assert_eq!(r, Ok(EXPECTED_DEFAULT.to_string()));
}

#[test]
fn read_reply_surfaces_path_resolution_failure() {
    let r = read_reply(Err(StoreError::PathResolution("no home directory".to_string())));
    assert_eq!(r, Err("path resolution failed: no home directory".to_string()));
}

#[test]
fn read_reply_surfaces_read_failure() {
    let r = read_reply(Err(StoreError::IoRead("permission denied".to_string())));
    assert_eq!(r, Err("read failed: permission denied".to_string()));
}

#[test]
fn write_reply_success_is_unit() {
    assert_eq!(write_reply(Ok(())), Ok(()));
}

#[test]
fn write_reply_surfaces_write_failure_with_nonempty_description() {
    let r = write_reply(Err(StoreError::IoWrite("permission denied".to_string())));
    assert_eq!(r, Err("write failed: permission denied".to_string()));
    let empty_detail = write_reply(Err(StoreError::IoWrite(String::new())));
    match empty_detail {
        Err(msg) => assert!(!msg.is_empty()),
        Ok(()) => panic!("a failed write must surface an error"),
    }
}

#[test]
fn describe_names_each_error_kind() {
    assert_eq!(
        StoreError::PathResolution("d1".to_string()).describe(),
        "path resolution failed: d1"
    );
    assert_eq!(StoreError::IoRead("d2".to_string()).describe(), "read failed: d2");
    assert_eq!(StoreError::IoWrite("d3".to_string()).describe(), "write failed: d3");
}
