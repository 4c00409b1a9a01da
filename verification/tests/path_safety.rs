use yukin::path_safety::{check_within, resolve_target, AncestorWalk, SafetyError};
use yukin::paths::{path_components, PathPart};

#[test]
fn joins_relative_paths_to_the_root_and_cleans_them() {
    assert_eq!(resolve_target("/w", "a/./b/../c"), "/w/a/c");
    assert_eq!(resolve_target("/w", "../etc/passwd"), "/etc/passwd");
    assert_eq!(resolve_target("/w", "/etc/passwd"), "/etc/passwd");
    assert_eq!(resolve_target("/w", ""), "/w");
    assert_eq!(resolve_target("/w", "sub/.."), "/w");
}

#[test]
fn refuses_paths_outside_the_root() {
    let root = path_components("/w");
    assert!(check_within(path_components("/w/a"), &root, "a").is_ok());
    assert!(check_within(path_components("/w"), &root, "").is_ok());
    assert_eq!(
        check_within(path_components("/etc/passwd"), &root, "../etc/passwd"),
        Err(SafetyError::PathEscape("../etc/passwd".into()))
    );
    assert!(check_within(path_components("/wx"), &root, "../wx").is_err());
}

#[test]
fn walks_up_to_an_existing_ancestor_and_back_down() {
    let mut walk = AncestorWalk::start("/w/sub/notyet/deeper/file.txt");
    walk.step_up("x").expect("file.txt");
    walk.step_up("x").expect("deeper");
    walk.step_up("x").expect("notyet");
    assert_eq!(walk.ancestor().len(), path_components("/w/sub").len());
    let candidate = walk.finish(path_components("/real/w/sub"));
    assert_eq!(candidate.len(), path_components("/real/w/sub/notyet/deeper/file.txt").len());

    let mut top = AncestorWalk::start("/");
    assert_eq!(
        top.step_up("user"),
        Err(SafetyError::PathEscape("user".into()))
    );
}

/// A small file system: the paths that exist, and the symbolic links with
/// their targets.
struct FakeFs {
    existing: Vec<String>,
    links: Vec<(String, String)>,
}

impl FakeFs {
    fn new(existing: &[&str], links: &[(&str, &str)]) -> FakeFs {
        FakeFs {
            existing: existing.iter().map(|p| p.to_string()).collect(),
            links: links.iter().map(|(a, b)| (a.to_string(), b.to_string())).collect(),
        }
    }

    fn canonicalize(&self, path: &str) -> Option<String> {
        let mut current = String::new();
        for name in path.split('/').filter(|name| !name.is_empty()) {
            let next = format!("{current}/{name}");
            let next = match self.links.iter().find(|(link, _)| *link == next) {
                Some((_, target)) => target.clone(),
                None => next,
            };
            if !self.existing.contains(&next) {
                return None;
            }
            current = next;
        }
        Some(if current.is_empty() { "/".to_string() } else { current })
    }
}

fn shown(parts: &[PathPart]) -> String {
    let names: Vec<&str> = parts
        .iter()
        .filter_map(|part| match part {
            PathPart::Normal(name) => Some(name.as_str()),
            _ => None,
        })
        .collect();
    format!("/{}", names.join("/"))
}

/// Resolves `user` inside `root` on the small file system, the way the
/// application does on the real one.
fn resolve_within(fs: &FakeFs, root: &str, user: &str) -> Result<String, SafetyError> {
    let target = resolve_target(root, user);
    let root_canonical = fs.canonicalize(root).ok_or(SafetyError::RootNotFound)?;
    let candidate = match fs.canonicalize(&target) {
        Some(path) => path_components(&path),
        None => {
            let mut walk = AncestorWalk::start(&target);
            loop {
                match fs.canonicalize(&shown(walk.ancestor())) {
                    Some(real) => break walk.finish(path_components(&real)),
                    None => walk.step_up(user)?,
                }
            }
        }
    };
    check_within(candidate, &path_components(&root_canonical), user).map(|parts| shown(&parts))
}

fn workspace() -> FakeFs {
    FakeFs::new(
        &[
            "/tmp",
            "/tmp/root",
            "/tmp/root/hello.txt",
            "/tmp/root/sub",
            "/tmp/root/sub/a.txt",
            "/tmp/root/real",
            "/tmp/root/real/data.txt",
            "/tmp/outside",
            "/tmp/outside/secret",
            "/etc",
            "/etc/passwd",
        ],
        &[
            ("/tmp/root/escape", "/tmp/outside"),
            ("/tmp/root/alias", "/tmp/root/real"),
        ],
    )
}

const ROOT: &str = "/tmp/root";

#[test]
fn relative_inside_existing_file_ok() {
    assert_eq!(resolve_within(&workspace(), ROOT, "hello.txt"), Ok("/tmp/root/hello.txt".into()));
}

#[test]
fn relative_inside_nested_dir_ok() {
    assert_eq!(resolve_within(&workspace(), ROOT, "sub/a.txt"), Ok("/tmp/root/sub/a.txt".into()));
}

#[test]
fn nonexistent_file_in_existing_dir_ok() {
    assert_eq!(resolve_within(&workspace(), ROOT, "new.txt"), Ok("/tmp/root/new.txt".into()));
}

#[test]
fn nonexistent_nested_in_existing_dir_ok() {
    assert_eq!(
        resolve_within(&workspace(), ROOT, "sub/notyet/deeper/file.txt"),
        Ok("/tmp/root/sub/notyet/deeper/file.txt".into())
    );
}

#[test]
fn dotdot_traversal_rejected() {
    let error = resolve_within(&workspace(), ROOT, "../etc/passwd").unwrap_err();
    assert!(matches!(error, SafetyError::PathEscape(_)));
}

#[test]
fn double_dotdot_traversal_rejected() {
    let error = resolve_within(&workspace(), ROOT, "../../etc/passwd").unwrap_err();
    assert!(matches!(error, SafetyError::PathEscape(_)));
}

#[test]
fn absolute_path_outside_rejected() {
    let error = resolve_within(&workspace(), ROOT, "/etc/passwd").unwrap_err();
    assert!(matches!(error, SafetyError::PathEscape(_)));
}

#[test]
fn absolute_path_inside_ok() {
    assert_eq!(
        resolve_within(&workspace(), ROOT, "/tmp/root/hello.txt"),
        Ok("/tmp/root/hello.txt".into())
    );
}

#[test]
fn symlink_escaping_root_rejected() {
    let error = resolve_within(&workspace(), ROOT, "escape/secret").unwrap_err();
    assert!(matches!(error, SafetyError::PathEscape(_)));
}

#[test]
fn symlink_inside_root_ok() {
    assert_eq!(
        resolve_within(&workspace(), ROOT, "alias/data.txt"),
        Ok("/tmp/root/real/data.txt".into())
    );
}

#[test]
fn dot_segments_collapsed() {
    assert_eq!(
        resolve_within(&workspace(), ROOT, "./sub/../hello.txt"),
        Ok("/tmp/root/hello.txt".into())
    );
}

#[test]
fn dotdot_at_end_after_inside_dir_still_inside() {
    assert_eq!(resolve_within(&workspace(), ROOT, "sub/.."), Ok("/tmp/root".into()));
}

#[test]
fn empty_string_resolves_to_root() {
    assert_eq!(resolve_within(&workspace(), ROOT, ""), Ok("/tmp/root".into()));
}

#[test]
fn a_missing_root_is_reported() {
    assert_eq!(
        resolve_within(&workspace(), "/tmp/gone", "a.txt"),
        Err(SafetyError::RootNotFound)
    );
}
