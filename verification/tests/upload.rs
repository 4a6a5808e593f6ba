use shareboxx::store::FileStore;
use shareboxx::upload::{exceeds_limit, handle_upload, UploadError, UploadPart, SEE_OTHER};
use shareboxx::TOTAL_SIZE_LIMIT;

fn part(name: &str, data: &[u8]) -> UploadPart {
    UploadPart { file_name: Some(name.to_string()), data: data.to_vec() }
}

#[test]
fn upload_single_file_scenario() {
    let mut store = FileStore::new();
    let parts = vec![part("a.txt", b"hello")];
    let r = handle_upload(&mut store, "", parts, TOTAL_SIZE_LIMIT);
    let rd = r.expect("a flawless upload succeeds");
    assert_eq!(rd.status, SEE_OTHER);
    assert_eq!(rd.status, 303);
    assert_eq!(rd.location, "/");
    assert_eq!(store.read_file("./files/a.txt"), Some(&b"hello".to_vec()));
}

#[test]
fn upload_batch_lands_under_subpath() {
    let mut store = FileStore::new();
    let parts = vec![part("a.txt", b"alpha"), part("b.bin", &[0u8, 255u8, 7u8])];
    let r = handle_upload(&mut store, "docs/", parts, TOTAL_SIZE_LIMIT);
    assert!(r.is_ok());
    assert_eq!(store.read_file("./files/docs/a.txt"), Some(&b"alpha".to_vec()));
    assert_eq!(store.read_file("./files/docs/b.bin"), Some(&vec![0u8, 255u8, 7u8]));
    assert_eq!(store.read_file("./files/a.txt"), None);
}

#[test]
fn collision_in_one_batch_last_write_wins() {
    let mut store = FileStore::new();
    let parts = vec![part("a.txt", b"first"), part("a.txt", b"second")];
    let r = handle_upload(&mut store, "", parts, TOTAL_SIZE_LIMIT);
    assert!(r.is_ok());
    assert_eq!(store.read_file("./files/a.txt"), Some(&b"second".to_vec()));
}

#[test]
fn collision_with_existing_file_overwrites_without_error() {
    let mut store = FileStore::new();
    let first = handle_upload(&mut store, "", vec![part("a.txt", b"old")], TOTAL_SIZE_LIMIT);
    assert!(first.is_ok());
    let second = handle_upload(&mut store, "", vec![part("a.txt", b"new")], TOTAL_SIZE_LIMIT);
    assert!(second.is_ok());
    assert_eq!(store.read_file("./files/a.txt"), Some(&b"new".to_vec()));
}

#[test]
fn oversized_request_rejected_before_any_write() {
    let mut store = FileStore::new();
    let parts = vec![part("a.txt", b"four"), part("b.txt", b"hello")];
    let r = handle_upload(&mut store, "", parts, 8);
    assert_eq!(r.err(), Some(UploadError::TooLarge));
    assert_eq!(store.read_file("./files/a.txt"), None);
    assert_eq!(store.read_file("./files/b.txt"), None);
}

#[test]
fn limit_is_inclusive() {
    let exactly = vec![part("a.txt", b"four"), part("b.txt", b"hello")];
    assert!(!exceeds_limit(&exactly, 9));
    assert!(exceeds_limit(&exactly, 8));
    let nothing: Vec<UploadPart> = vec![];
    assert!(!exceeds_limit(&nothing, 0));
}

#[test]
fn missing_file_name_rejected_and_nothing_persisted() {
    let mut store = FileStore::new();
    let parts = vec![
        part("a.txt", b"fine"),
        UploadPart { file_name: None, data: b"anonymous".to_vec() },
    ];
    let r = handle_upload(&mut store, "", parts, TOTAL_SIZE_LIMIT);
    assert_eq!(r.err(), Some(UploadError::MissingFileName));
    assert_eq!(store.read_file("./files/a.txt"), None);
}

#[test]
fn unsafe_upload_path_rejected() {
    let mut store = FileStore::new();
    let r = handle_upload(&mut store, "../", vec![part("a.txt", b"x")], TOTAL_SIZE_LIMIT);
    assert_eq!(r.err(), Some(UploadError::UnsafePath));
    let r = handle_upload(&mut store, "/etc/", vec![part("a.txt", b"x")], TOTAL_SIZE_LIMIT);
    assert_eq!(r.err(), Some(UploadError::UnsafePath));
}

#[test]
fn unsafe_file_name_rejected() {
    let mut store = FileStore::new();
    let r = handle_upload(&mut store, "", vec![part("..", b"x")], TOTAL_SIZE_LIMIT);
    assert_eq!(r.err(), Some(UploadError::UnsafePath));
    let r = handle_upload(&mut store, "", vec![part("a/b.txt", b"x")], TOTAL_SIZE_LIMIT);
    assert_eq!(r.err(), Some(UploadError::UnsafePath));
    let r = handle_upload(&mut store, "", vec![part("", b"x")], TOTAL_SIZE_LIMIT);
    assert_eq!(r.err(), Some(UploadError::UnsafePath));
}

#[test]
fn empty_batch_still_redirects() {
    let mut store = FileStore::new();
    let r = handle_upload(&mut store, "", vec![], TOTAL_SIZE_LIMIT);
    let rd = r.expect("an empty batch has no flaw");
    assert_eq!(rd.status, 303);
    assert_eq!(rd.location, "/");
}
