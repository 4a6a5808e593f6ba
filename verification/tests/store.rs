use shareboxx::store::FileStore;

#[test]
fn write_then_read_back() {
    let mut store = FileStore::new();
    store.write_file("./files/a.txt".to_string(), b"hello".to_vec());
    assert_eq!(store.read_file("./files/a.txt"), Some(&b"hello".to_vec()));
}

#[test]
fn missing_path_reads_none() {
    let store = FileStore::new();
    assert_eq!(store.read_file("./files/absent.txt"), None);
    let mut store = FileStore::new();
    store.write_file("./files/a.txt".to_string(), b"hello".to_vec());
    assert_eq!(store.read_file("./files/b.txt"), None);
    assert_eq!(store.read_file("./files/a.tx"), None);
}

#[test]
fn second_write_to_same_path_wins() {
    let mut store = FileStore::new();
    store.write_file("./files/a.txt".to_string(), b"first".to_vec());
    store.write_file("./files/a.txt".to_string(), b"second".to_vec());
    assert_eq!(store.read_file("./files/a.txt"), Some(&b"second".to_vec()));
}
