use content_integrity::canonical_path::{
    canonicalize_components, canonicalize_path, PathComponent, PathError,
};

fn normal(name: &str) -> PathComponent {
    PathComponent::Normal(name.to_string())
}

#[test]
fn test_canonicalize_path() {
    assert_eq!(canonicalize_path("foo/bar").unwrap(), "foo/bar");
}

#[test]
fn components_are_joined_by_slashes() {
    assert_eq!(
        canonicalize_components(&vec![normal("a"), normal("b")]),
        Ok("a/b".to_string())
    );
    assert_eq!(
        canonicalize_components(&vec![normal("a")]),
        Ok("a".to_string())
    );
    assert_eq!(canonicalize_components(&vec![]), Ok(String::new()));
    assert_eq!(
        canonicalize_components(&vec![normal("dir"), normal("sub dir"), normal("file.txt")]),
        Ok("dir/sub dir/file.txt".to_string())
    );
}

#[test]
fn parent_and_current_directory_are_refused() {
    assert_eq!(
        canonicalize_components(&vec![normal("a"), PathComponent::ParentDir, normal("b")]),
        Err(PathError::InvalidComponent)
    );
    assert_eq!(
        canonicalize_components(&vec![PathComponent::CurDir, normal("b")]),
        Err(PathError::InvalidComponent)
    );
    assert_eq!(canonicalize_path("a/../b"), Err(PathError::InvalidComponent));
    assert_eq!(canonicalize_path("./b"), Err(PathError::InvalidComponent));
    assert_eq!(canonicalize_path(".."), Err(PathError::InvalidComponent));
}

#[test]
fn roots_and_prefixes_are_refused() {
    assert_eq!(
        canonicalize_components(&vec![PathComponent::RootDir, normal("b")]),
        Err(PathError::InvalidComponent)
    );
    assert_eq!(
        canonicalize_components(&vec![PathComponent::Prefix, normal("b")]),
        Err(PathError::InvalidComponent)
    );
    assert_eq!(canonicalize_path("/foo/bar"), Err(PathError::InvalidComponent));
}

#[test]
fn separators_inside_a_name_are_refused() {
    assert_eq!(
        canonicalize_components(&vec![normal("a/b")]),
        Err(PathError::InvalidComponent)
    );
    assert_eq!(
        canonicalize_components(&vec![normal("a"), normal("b\\c")]),
        Err(PathError::InvalidComponent)
    );
}

#[test]
fn names_that_are_not_unicode_are_refused() {
    assert_eq!(
        canonicalize_components(&vec![normal("a"), PathComponent::NonUnicode]),
        Err(PathError::NonUnicodeComponent)
    );
}

#[test]
fn the_first_bad_component_decides() {
    assert_eq!(
        canonicalize_components(&vec![PathComponent::NonUnicode, PathComponent::ParentDir]),
        Err(PathError::NonUnicodeComponent)
    );
    assert_eq!(
        canonicalize_components(&vec![PathComponent::ParentDir, PathComponent::NonUnicode]),
        Err(PathError::InvalidComponent)
    );
}

#[test]
fn unicode_names_pass() {
    assert_eq!(
        canonicalize_components(&vec![normal("däta"), normal("文件")]),
        Ok("däta/文件".to_string())
    );
    assert_eq!(canonicalize_path("däta/文件").unwrap(), "däta/文件");
}

#[test]
fn the_same_components_give_the_same_text() {
    let components = vec![normal("x"), normal("y"), normal("z")];
    assert_eq!(
        canonicalize_components(&components),
        canonicalize_components(&components.clone())
    );
    assert_ne!(
        canonicalize_components(&vec![normal("x"), normal("yz")]),
        canonicalize_components(&vec![normal("xy"), normal("z")])
    );
}

#[test]
fn a_dot_segment_is_refused_wherever_it_stands() {
    for text in ["a/./b", "./b", "a/.", ".", "a/b/./c", "a\\.\\b", "./"] {
        assert_eq!(
            canonicalize_path(text),
            Err(PathError::InvalidComponent),
            "{:?}",
            text
        );
    }
    assert_eq!(
        canonicalize_components(&vec![normal("a"), PathComponent::CurDir, normal("b")]),
        Err(PathError::InvalidComponent)
    );
}

#[test]
fn dots_inside_names_pass() {
    assert_eq!(canonicalize_path("a/.b/c.").unwrap(), "a/.b/c.");
    assert_eq!(canonicalize_path("a.b/...").unwrap(), "a.b/...");
    assert_eq!(canonicalize_path(".hidden").unwrap(), ".hidden");
}
