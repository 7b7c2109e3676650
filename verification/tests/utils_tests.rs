use glot_languages::language::FileRef;
use glot_languages::utils::ends_with_extension;
use glot_languages::utils::filter_by_extension;
use glot_languages::utils::join_files;
use glot_languages::utils::str_eq;

fn file(path: &str) -> FileRef {
    FileRef { path: path.to_string() }
}

fn paths(files: &[FileRef]) -> Vec<String> {
    files.iter().map(|f| f.path.clone()).collect()
}

#[test]
fn suffix_requires_the_dot() {
    assert!(ends_with_extension("foo.c", "c"));
    assert!(!ends_with_extension("fooc", "c"));
}

#[test]
fn suffix_is_a_plain_test() {
    assert!(ends_with_extension("dir.c/foo.c", "c"));
    assert!(!ends_with_extension("foo.C", "c"));
    assert!(!ends_with_extension("foo.cc", "c"));
    assert!(ends_with_extension("a.tar.gz", "gz"));
    assert!(ends_with_extension(".c", "c"));
    assert!(!ends_with_extension("c", "c"));
}

#[test]
fn filter_keeps_matches_in_order() {
    let files = vec![file("b.c"), file("notes.txt"), file("a.c"), file("fooc")];
    let kept = filter_by_extension(files, "c");
    assert_eq!(paths(&kept), vec!["b.c".to_string(), "a.c".to_string()]);
}

#[test]
fn filter_of_no_matches_is_empty() {
    let files = vec![file("readme.md"), file("data.bin")];
    let kept = filter_by_extension(files, "erl");
    assert!(kept.is_empty());
}

#[test]
fn join_of_empty_is_empty_string() {
    let none: Vec<FileRef> = Vec::new();
    assert_eq!(join_files(&none), "");
}

#[test]
fn join_of_one_is_its_path() {
    let one = vec![file("main.erl")];
    assert_eq!(join_files(&one), "main.erl");
}

#[test]
fn join_of_two_uses_one_space() {
    let two = vec![file("a.c"), file("b.c")];
    assert_eq!(join_files(&two), "a.c b.c");
}

#[test]
fn str_eq_compares_contents() {
    assert!(str_eq("erlang", "erlang"));
    assert!(!str_eq("erlang", "erlan"));
    assert!(!str_eq("", "c"));
    assert!(str_eq("", ""));
}
