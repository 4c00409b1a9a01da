use yukin::paths::{path_components, PathPart};
use yukin::workspace::{
    apply_edit, glob_results, listed_path, read_result, relative_to_root, sort_dir_entries,
    DirEntry, READ_TRUNCATE_BYTES,
};

fn parts(path: &str) -> Vec<PathPart> {
    path_components(path)
}

fn std_edit(original: &str, search: &str, replace: &str, all: bool) -> Option<String> {
    let updated = if all {
        original.replace(search, replace)
    } else {
        original.replacen(search, replace, 1)
    };
    if updated == original {
        None
    } else {
        Some(updated)
    }
}

#[test]
fn edits_agree_with_std_replace() {
    let texts = ["", "a", "abc", "aaa", "abab", "héllo wörld", "x\ny\nx", "文件文件"];
    let patterns = ["", "a", "aa", "b", "ab", "ö", "\n", "文件", "zzz"];
    let replacements = ["", "a", "X", "yy", "文"];
    for text in texts {
        for search in patterns {
            for replace in replacements {
                for all in [false, true] {
                    assert_eq!(
                        apply_edit(text, search, replace, all),
                        std_edit(text, search, replace, all),
                        "{text:?} {search:?} {replace:?} {all}"
                    );
                }
            }
        }
    }
}

#[test]
fn edits_replace_the_first_or_every_occurrence() {
    assert_eq!(apply_edit("one two one", "one", "1", false).as_deref(), Some("1 two one"));
    assert_eq!(apply_edit("one two one", "one", "1", true).as_deref(), Some("1 two 1"));
    assert_eq!(apply_edit("aaa", "aa", "b", true).as_deref(), Some("ba"));
    assert_eq!(apply_edit("ab", "", "-", true).as_deref(), Some("-a-b-"));
    assert_eq!(apply_edit("ab", "", "-", false).as_deref(), Some("-ab"));
    assert_eq!(apply_edit("abc", "x", "y", true), None);
    assert_eq!(apply_edit("abc", "b", "b", false), None);
}

#[test]
fn reads_are_cut_at_the_limit() {
    let small = read_result("héllo".as_bytes());
    assert_eq!(small.content, "héllo");
    assert!(!small.truncated);
    assert_eq!(small.original_size, 6);

    let big = vec![b'a'; READ_TRUNCATE_BYTES + 5];
    let result = read_result(&big);
    assert!(result.truncated);
    assert_eq!(result.original_size, READ_TRUNCATE_BYTES + 5);
    assert_eq!(result.content.len(), READ_TRUNCATE_BYTES);

    let exact = vec![b'b'; READ_TRUNCATE_BYTES];
    assert!(!read_result(&exact).truncated);

    let invalid = read_result(&[b'o', 0xff, b'k']);
    assert_eq!(invalid.content, "o\u{fffd}k");
}

#[test]
fn paths_are_shown_relative_to_the_root() {
    assert_eq!(
        relative_to_root(&parts("/work/space/a/b.txt"), &parts("/work/space")).as_deref(),
        Some("a/b.txt")
    );
    assert_eq!(relative_to_root(&parts("/work/space"), &parts("/work/space")).as_deref(), Some(""));
    assert_eq!(relative_to_root(&parts("/work/other/a"), &parts("/work/space")), None);
    assert_eq!(
        listed_path(&parts("/elsewhere/x"), &parts("/work/space"), "x".to_string()),
        "x"
    );
    assert_eq!(
        listed_path(&parts("/work/space/d/x"), &parts("/work/space"), "x".to_string()),
        "d/x"
    );
}

fn entry(name: &str) -> DirEntry {
    DirEntry {
        name: name.to_string(),
        path: name.to_string(),
        is_dir: false,
        is_file: true,
        size: Some(1),
    }
}

#[test]
fn listings_and_glob_matches_are_sorted() {
    let sorted = sort_dir_entries(vec![entry("b"), entry("B"), entry("a"), entry("é")]);
    let names: Vec<&str> = sorted.iter().map(|e| e.name.as_str()).collect();
    assert_eq!(names, vec!["B", "a", "b", "é"]);

    let matches = vec![
        parts("/root/z.txt"),
        parts("/outside/a.txt"),
        parts("/root/sub/a.txt"),
        parts("/root/b.txt"),
    ];
    assert_eq!(
        glob_results(&matches, &parts("/root")),
        vec!["b.txt".to_string(), "sub/a.txt".to_string(), "z.txt".to_string()]
    );
}
