use passepartout::catalog::{entry_file_path, resolve_store_root, scan, ScannedFile};
use passepartout::PasswordError;

fn file(path: &str) -> ScannedFile {
    ScannedFile::new(path.to_string(), true)
}

fn ids(infos: &[passepartout::PasswordInfo]) -> Vec<String> {
    infos.iter().map(|p| p.pass_id.clone()).collect()
}

#[test]
fn scan_selects_only_encrypted_files() {
    let files = vec![
        file("/root/store/email/personal.gpg"),
        file("/root/store/notes.txt"),
        file("/root/store/work.gpg"),
        file("/root/store/.gitignore"),
    ];
    let catalog = scan("/root/store", &files);
    assert_eq!(ids(&catalog), vec!["email/personal".to_string(), "work".to_string()]);
}

#[test]
fn scan_strips_root_and_suffix() {
    let files = vec![file("/home/u/.password-store/a/b/c.gpg")];
    let catalog = scan("/home/u/.password-store", &files);
    assert_eq!(catalog.len(), 1);
    assert_eq!(catalog[0].pass_id, "a/b/c");
}

#[test]
fn scan_sorts_ascending() {
    let files = vec![
        file("/s/zulu.gpg"),
        file("/s/alpha.gpg"),
        file("/s/mike/november.gpg"),
        file("/s/mike.gpg"),
    ];
    let catalog = scan("/s", &files);
    assert_eq!(
        ids(&catalog),
        vec![
            "alpha".to_string(),
            "mike".to_string(),
            "mike/november".to_string(),
            "zulu".to_string()
        ]
    );
}

#[test]
fn scan_is_independent_of_walk_order() {
    let forward = vec![file("/s/a.gpg"), file("/s/b.gpg"), file("/s/c/d.gpg")];
    let backward = vec![file("/s/c/d.gpg"), file("/s/b.gpg"), file("/s/a.gpg")];
    assert_eq!(ids(&scan("/s", &forward)), ids(&scan("/s", &backward)));
}

#[test]
fn scan_drops_unreadable_metadata() {
    let files = vec![
        ScannedFile::new("/s/good.gpg".to_string(), true),
        ScannedFile::new("/s/bad.gpg".to_string(), false),
    ];
    let catalog = scan("/s", &files);
    assert_eq!(ids(&catalog), vec!["good".to_string()]);
}

#[test]
fn scan_of_empty_walk_is_empty() {
    let catalog = scan("/s", &Vec::new());
    assert!(catalog.is_empty());
}

#[test]
fn root_resolution_home_anchored() {
    let r = resolve_store_root(Some("~/.store".to_string()), Some("/home/u".to_string()));
    assert_eq!(r.unwrap(), "/home/u/.store");
}

#[test]
fn root_resolution_home_variable_anchored() {
    let r = resolve_store_root(Some("$HOME/.store".to_string()), Some("/home/u".to_string()));
    assert_eq!(r.unwrap(), "/home/u/.store");
}

#[test]
fn root_resolution_absolute_override() {
    let r = resolve_store_root(Some("/abs/store".to_string()), Some("/home/u".to_string()));
    assert_eq!(r.unwrap(), "/abs/store");
}

#[test]
fn root_resolution_default() {
    let r = resolve_store_root(None, Some("/home/u".to_string()));
    assert_eq!(r.unwrap(), "/home/u/.password-store");
}

#[test]
fn root_resolution_relative_override_falls_back() {
    let r = resolve_store_root(Some("some/relative".to_string()), Some("/home/u".to_string()));
    assert_eq!(r.unwrap(), "/home/u/.password-store");
}

#[test]
fn root_resolution_without_home_is_fatal() {
    let r = resolve_store_root(Some("/abs/store".to_string()), None);
    assert!(matches!(r, Err(PasswordError::StoreUnresolvable)));
}

#[test]
fn entry_file_path_appends_suffix() {
    assert_eq!(entry_file_path("/s", "email/personal"), "/s/email/personal.gpg");
}

#[test]
fn scan_excludes_paths_outside_the_root() {
    let files = vec![file("/elsewhere/a.gpg"), file("/s/b.gpg")];
    let catalog = scan("/s", &files);
    assert_eq!(ids(&catalog), vec!["b".to_string()]);
}

#[test]
fn scan_keeps_equal_identifiers_from_distinct_walks() {
    let files = vec![file("/s/a.gpg"), file("/s/a.gpg")];
    let catalog = scan("/s", &files);
    assert_eq!(ids(&catalog), vec!["a".to_string(), "a".to_string()]);
}
