use yukin::paths::{
    child_relative_path_of, display_relative_path, file_extension, is_single_normal,
    path_components, path_starts_with, PathPart,
};

fn names(path: &str) -> Vec<String> {
    path_components(path)
        .into_iter()
        .map(|part| match part {
            PathPart::RootDir => "/".to_string(),
            PathPart::CurDir => ".".to_string(),
            PathPart::ParentDir => "..".to_string(),
            PathPart::Normal(name) => name,
        })
        .collect()
}

#[test]
fn splits_paths_like_std() {
    for path in [
        "", "/", "//a", "a/b", "./a", ".", "a/./b", "a//b/", "../a", "/a/../b", ".hidden/x",
        "a/.", "./", "x/..", "/./a",
    ] {
        let expected: Vec<String> = std::path::Path::new(path)
            .components()
            .map(|c| c.as_os_str().to_string_lossy().into_owned())
            .collect();
        assert_eq!(names(path), expected, "{path:?}");
    }
}

#[test]
fn shows_relative_paths_with_normal_components_only() {
    assert_eq!(display_relative_path("./a//b/."), "a/b");
    assert_eq!(display_relative_path("../a"), "a");
    assert_eq!(display_relative_path(""), "");
    assert_eq!(child_relative_path_of("", "x"), "x");
    assert_eq!(child_relative_path_of("docs/sub", "x"), "docs/sub/x");
}

#[test]
fn compares_by_components() {
    assert!(path_starts_with("a/b/c", "a/b"));
    assert!(path_starts_with("a/b", "a/b/"));
    assert!(!path_starts_with("a/bc", "a/b"));
    assert!(path_starts_with("a/b", ""));
}

#[test]
fn extensions_follow_the_last_dot() {
    for name in ["a.txt", "a.tar.gz", ".hidden", "noext", "trailing.", "..", ".a.b"] {
        let expected = std::path::Path::new(name)
            .extension()
            .map(|e| e.to_string_lossy().into_owned());
        assert_eq!(file_extension(name), expected, "{name:?}");
    }
    assert!(is_single_normal("a.txt"));
    assert!(is_single_normal("a.txt/"));
    assert!(!is_single_normal("./a.txt"));
    assert!(!is_single_normal("a/b"));
    assert!(!is_single_normal(".."));
}
