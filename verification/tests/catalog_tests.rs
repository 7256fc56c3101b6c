use model_supervisor::catalog::{Catalog, FsEntry, ModelRecord, split_name, str_eq};

fn entry(name: &str, path: &str, is_dir: bool) -> FsEntry {
    FsEntry { name: name.to_string(), path: path.to_string(), is_dir }
}

fn record_fields_equal(a: &ModelRecord, b: &ModelRecord) -> bool {
    a.id == b.id && a.name == b.name && a.path == b.path && a.loaded == b.loaded
}

#[test]
fn split_name_file_with_extension() {
    let (stem, ext) = split_name("alpha.gguf");
    assert_eq!(stem, "alpha");
    assert_eq!(ext, Some("gguf".to_string()));
}

#[test]
fn split_name_no_dot() {
    let (stem, ext) = split_name("alpha");
    assert_eq!(stem, "alpha");
    assert_eq!(ext, None);
}

#[test]
fn split_name_hidden_file_has_no_extension() {
    let (stem, ext) = split_name(".gguf");
    assert_eq!(stem, ".gguf");
    assert_eq!(ext, None);
}

#[test]
fn split_name_takes_last_dot() {
    let (stem, ext) = split_name("model.v2.bin");
    assert_eq!(stem, "model.v2");
    assert_eq!(ext, Some("bin".to_string()));
}

#[test]
fn str_eq_agrees_with_equality() {
    assert!(str_eq("gguf", "gguf"));
    assert!(!str_eq("gguf", "bin"));
    assert!(!str_eq("gg", "gguf"));
    assert!(str_eq("", ""));
}

#[test]
fn scan_file_and_directory() {
    let entries = vec![
        entry("alpha.gguf", "./models/alpha.gguf", false),
        entry("beta", "./models/beta", true),
    ];
    let cat = Catalog::scan(&entries);
    let list = cat.list();
    assert_eq!(list.len(), 2);
    assert_eq!(list[0].id, "alpha");
    assert_eq!(list[0].name, "alpha.gguf");
    assert_eq!(list[0].path, "./models/alpha.gguf");
    assert!(!list[0].loaded);
    assert_eq!(list[1].id, "beta");
    assert_eq!(list[1].name, "beta");
    assert_eq!(list[1].path, "./models/beta");
    assert!(!list[1].loaded);
}

#[test]
fn scan_skips_unrecognized_entries() {
    let entries = vec![
        entry("readme.txt", "./models/readme.txt", false),
        entry("noext", "./models/noext", false),
        entry(".gguf", "./models/.gguf", false),
        entry("w.pt", "./models/w.pt", false),
        entry("w2.bin", "./models/w2.bin", false),
    ];
    let cat = Catalog::scan(&entries);
    let list = cat.list();
    assert_eq!(list.len(), 2);
    assert_eq!(list[0].id, "w");
    assert_eq!(list[1].id, "w2");
}

#[test]
fn scan_later_entry_replaces_equal_identifier() {
    let entries = vec![
        entry("alpha.gguf", "./models/alpha.gguf", false),
        entry("alpha", "./models/alpha", true),
    ];
    let cat = Catalog::scan(&entries);
    let list = cat.list();
    assert_eq!(list.len(), 1);
    assert_eq!(list[0].id, "alpha");
    assert_eq!(list[0].name, "alpha");
    assert_eq!(list[0].path, "./models/alpha");
}

#[test]
fn rescan_unchanged_listing_is_idempotent() {
    let entries = vec![
        entry("alpha.gguf", "./models/alpha.gguf", false),
        entry("beta", "./models/beta", true),
        entry("gamma.bin", "./models/gamma.bin", false),
    ];
    let first = Catalog::scan(&entries).list();
    let second = Catalog::scan(&entries).list();
    assert_eq!(first.len(), second.len());
    for (a, b) in first.iter().zip(second.iter()) {
        assert!(record_fields_equal(a, b));
    }
}

#[test]
fn get_and_set_mark() {
    let entries = vec![entry("alpha.gguf", "./models/alpha.gguf", false)];
    let mut cat = Catalog::scan(&entries);
    assert!(cat.get(&"missing".to_string()).is_none());
    let rec = cat.get(&"alpha".to_string()).unwrap();
    assert!(!rec.loaded);
    assert!(cat.set_mark(&"alpha".to_string(), true));
    assert!(cat.get(&"alpha".to_string()).unwrap().loaded);
    assert!(!cat.set_mark(&"missing".to_string(), true));
}
