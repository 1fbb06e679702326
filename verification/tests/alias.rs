use code_open::alias::{resolve_host_name_to_local_configured_name, AliasTable};
use code_open::error::ConfigError;
use code_open::request::CodeOpenInfo;
use code_open::store::{
    load_local_configured_name_table, start_table, ConfigPaths, TABLE_FILE_NAME, THIS_APP_NAME,
};

fn info(host: &str, path: &str) -> CodeOpenInfo {
    CodeOpenInfo::new(host.to_owned(), path.to_owned())
}

#[test]
fn alias_replaces_the_reported_host() {
    let mut table = AliasTable::new();
    table.insert("boxA".to_owned(), "my-alias".to_owned());
    let resolved = resolve_host_name_to_local_configured_name(info("boxA", "/home/u/proj"), &table);
    assert_eq!(resolved, info("my-alias", "/home/u/proj"));
}

#[test]
fn without_alias_the_info_is_unchanged() {
    let table = AliasTable::new();
    let resolved = resolve_host_name_to_local_configured_name(info("boxA", "/home/u/proj"), &table);
    assert_eq!(resolved, info("boxA", "/home/u/proj"));
}

#[test]
fn lookup_is_by_the_whole_name() {
    let mut table = AliasTable::new();
    table.insert("boxA".to_owned(), "my-alias".to_owned());
    for host in ["boxa", "boxA.local", "box", "", " boxA"] {
        let resolved = resolve_host_name_to_local_configured_name(info(host, "/p"), &table);
        assert_eq!(resolved, info(host, "/p"));
    }
}

#[test]
fn lookup_is_made_once() {
    let mut table = AliasTable::new();
    table.insert("a".to_owned(), "b".to_owned());
    table.insert("b".to_owned(), "c".to_owned());
    let resolved = resolve_host_name_to_local_configured_name(info("a", "/p"), &table);
    assert_eq!(resolved, info("b", "/p"));
}

#[test]
fn resolving_leaves_the_table_alone() {
    let mut table = AliasTable::new();
    table.insert("boxA".to_owned(), "my-alias".to_owned());
    let _ = resolve_host_name_to_local_configured_name(info("boxA", "/p"), &table);
    let _ = resolve_host_name_to_local_configured_name(info("other", "/p"), &table);
    assert_eq!(table.len(), 1);
    assert_eq!(table.get("boxA"), Some(&"my-alias".to_owned()));
    assert_eq!(table.get("other"), None);
}

#[test]
fn table_holds_what_was_inserted() {
    let mut table = AliasTable::new();
    assert!(table.is_empty());
    table.insert("a".to_owned(), "1".to_owned());
    table.insert("b".to_owned(), "2".to_owned());
    table.insert("a".to_owned(), "3".to_owned());
    assert_eq!(table.len(), 2);
    assert!(!table.is_empty());
    assert_eq!(table.get("a"), Some(&"3".to_owned()));
    assert_eq!(table.get("b"), Some(&"2".to_owned()));
}

#[test]
fn later_pair_wins() {
    let pairs = vec![
        ("a".to_owned(), "1".to_owned()),
        ("b".to_owned(), "2".to_owned()),
        ("a".to_owned(), "3".to_owned()),
    ];
    let table = AliasTable::from_pairs(&pairs);
    assert_eq!(table.len(), 2);
    assert_eq!(table.get("a"), Some(&"3".to_owned()));
    assert_eq!(table.get("b"), Some(&"2".to_owned()));
}

#[test]
fn missing_table_file_gives_an_empty_table_to_store() {
    let loaded = load_local_configured_name_table(None).unwrap();
    assert!(loaded.table.is_empty());
    assert_eq!(loaded.to_store, Some("{}".to_owned()));
}

#[test]
fn stored_empty_table_is_loaded_as_it_is() {
    let loaded = load_local_configured_name_table(Some("{}")).unwrap();
    assert!(loaded.table.is_empty());
    assert_eq!(loaded.to_store, None);
}

#[test]
fn text_of_the_empty_table_loads_as_the_empty_table() {
    let first = load_local_configured_name_table(None).unwrap();
    let text = first.to_store.unwrap();
    let second = load_local_configured_name_table(Some(&text)).unwrap();
    assert!(second.table.is_empty());
    assert_eq!(second.to_store, None);
}

#[test]
fn stored_table_is_loaded() {
    let text = "{ \"boxA\": \"my-alias\", \"boxB\": \"other\" }";
    let loaded = load_local_configured_name_table(Some(text)).unwrap();
    assert_eq!(loaded.to_store, None);
    assert_eq!(loaded.table.len(), 2);
    assert_eq!(loaded.table.get("boxA"), Some(&"my-alias".to_owned()));
    let mut entries = loaded.entries.clone();
    entries.sort();
    assert_eq!(
        entries,
        vec![
            ("boxA".to_owned(), "my-alias".to_owned()),
            ("boxB".to_owned(), "other".to_owned())
        ]
    );
    let resolved = resolve_host_name_to_local_configured_name(info("boxA", "/p"), &loaded.table);
    assert_eq!(resolved, info("my-alias", "/p"));
}

#[test]
fn stored_text_that_holds_no_table_gives_an_empty_table_to_store() {
    for text in ["", "not json", "[1, 2]", "{\"a\": 1}", "{\"a\": \"b\"} trailing", "{\"a\": \"b\""] {
        let loaded = load_local_configured_name_table(Some(text)).unwrap();
        assert!(loaded.table.is_empty());
        assert_eq!(loaded.to_store, Some("{}".to_owned()));
    }
}

#[test]
fn start_without_entries_needs_a_text_to_store() {
    let loaded = start_table(None, Some("{}".to_owned())).unwrap();
    assert!(loaded.table.is_empty());
    assert!(loaded.entries.is_empty());
    assert_eq!(loaded.to_store, Some("{}".to_owned()));
    assert_eq!(start_table(None, None).err(), Some(ConfigError::TableUnwritable));
}

#[test]
fn start_with_entries_stores_nothing() {
    let pairs = vec![
        ("boxA".to_owned(), "old".to_owned()),
        ("boxA".to_owned(), "my-alias".to_owned()),
    ];
    for empty_text in [None, Some("{}".to_owned())] {
        let loaded = start_table(Some(pairs.clone()), empty_text).unwrap();
        assert_eq!(loaded.table.len(), 1);
        assert_eq!(loaded.table.get("boxA"), Some(&"my-alias".to_owned()));
        assert_eq!(loaded.entries, pairs);
        assert_eq!(loaded.to_store, None);
    }
    let loaded = start_table(Some(Vec::new()), None).unwrap();
    assert!(loaded.table.is_empty());
    assert_eq!(loaded.to_store, None);
}

#[test]
fn table_file_lies_in_the_servers_directory() {
    let paths = ConfigPaths::new("/home/u/.config", "/");
    assert_eq!(paths.config_base_path(), "/home/u/.config/code-open-server");
    assert_eq!(paths.get_table_file_path(), "/home/u/.config/code-open-server/table.json");
    assert_eq!(THIS_APP_NAME, "code-open-server");
    assert_eq!(TABLE_FILE_NAME, "table.json");
}

#[test]
fn paths_use_the_given_separator() {
    let paths = ConfigPaths::new("C:\\Users\\u\\AppData", "\\");
    assert_eq!(
        paths.get_table_file_path(),
        "C:\\Users\\u\\AppData\\code-open-server\\table.json"
    );
}
