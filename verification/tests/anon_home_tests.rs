use content_integrity::anon_home::{
    default_homedirs, home_substitution, unique_paths, PathExt,
};
use std::path::PathBuf;

#[test]
fn no_change() {
    // This is not your home directory
    let path = PathBuf::from("/completely/untoucha8le");
    assert_eq!(path.anonymize_home().to_string(), path.to_string_lossy());
}

#[test]
fn in_home() {
    if let Some(home) = dirs::home_dir() {
        let arti_conf = home.join("here").join("is").join("a").join("path");
        assert_eq!(
            arti_conf.anonymize_home().to_string(),
            "${HOME}/here/is/a/path"
        );
    }
}

#[test]
fn a_path_below_a_home_directory_is_abbreviated() {
    let homes = vec![PathBuf::from("/home/alice"), PathBuf::from("/mnt/real/alice")];
    let path = PathBuf::from("/home/alice/.config/arti.toml");
    assert_eq!(
        path.anonymize_home().to_string_with(&homes, '/'),
        "${HOME}/.config/arti.toml"
    );
    let canonical = PathBuf::from("/mnt/real/alice/x");
    assert_eq!(
        canonical.anonymize_home().to_string_with(&homes, '/'),
        "${HOME}/x"
    );
    assert_eq!(
        path.anonymize_home().to_string_with(&homes, '\\'),
        "%UserProfile%\\.config/arti.toml"
    );
    let home = PathBuf::from("/home/alice");
    assert_eq!(home.anonymize_home().to_string_with(&homes, '/'), "${HOME}/");
}

#[test]
fn a_path_elsewhere_is_shown_as_it_is() {
    let homes = vec![PathBuf::from("/home/alice")];
    for text in ["/home/alicex/file", "/home", "/etc/passwd", "home/alice/x", ""] {
        let path = PathBuf::from(text);
        assert_eq!(path.anonymize_home().to_string_with(&homes, '/'), text);
    }
    let path = PathBuf::from("/home/alice/x");
    assert_eq!(
        path.anonymize_home().to_string_with(&Vec::new(), '/'),
        "/home/alice/x"
    );
}

#[test]
fn the_first_matching_home_directory_wins() {
    let homes = vec![PathBuf::from("/home"), PathBuf::from("/home/alice")];
    let path = PathBuf::from("/home/alice/x");
    assert_eq!(
        path.anonymize_home().to_string_with(&homes, '/'),
        "${HOME}/alice/x"
    );
}

#[test]
fn the_symbolic_reference_follows_the_separator() {
    assert_eq!(home_substitution('/'), "${HOME}");
    assert_eq!(home_substitution('\\'), "%UserProfile%");
}

#[test]
fn home_directories_are_listed_once() {
    let a = PathBuf::from("/home/a");
    let b = PathBuf::from("/data/a");
    assert_eq!(
        default_homedirs(Some(a.clone()), Some(a.clone()), Some(a.clone())),
        vec![a.clone()]
    );
    assert_eq!(
        default_homedirs(Some(a.clone()), Some(b.clone()), Some(a.clone())),
        vec![a.clone(), b.clone()]
    );
    assert_eq!(
        default_homedirs(Some(a.clone()), None, Some(b.clone())),
        vec![a.clone(), b.clone()]
    );
    assert_eq!(default_homedirs(Some(a.clone()), None, None), vec![a.clone()]);
    assert_eq!(
        default_homedirs(None, Some(a.clone()), Some(b.clone())),
        Vec::<PathBuf>::new()
    );
}

#[test]
fn duplicates_are_dropped_in_order() {
    let p = |s: &str| PathBuf::from(s);
    assert_eq!(
        unique_paths(vec![p("b"), p("a"), p("b"), p("c"), p("a")]),
        vec![p("b"), p("a"), p("c")]
    );
    assert_eq!(unique_paths(Vec::new()), Vec::<PathBuf>::new());
}

#[test]
fn paths_that_differ_only_in_spelling_are_listed_once() {
    let p = |s: &str| PathBuf::from(s);
    let listed = unique_paths(vec![p("/home/a"), p("/home//a"), p("/home/a/"), p("/home/b")]);
    assert_eq!(listed.len(), 2);
    for (i, first) in listed.iter().enumerate() {
        for second in &listed[i + 1..] {
            assert_ne!(first, second);
        }
    }
}
