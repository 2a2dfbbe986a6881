use sshbridge::paths::{
    base_name_of, dir_prefixes, join_under_dir, parent_dir_to_create, path_segments,
    trim_trailing_slashes,
};
use sshbridge::strutil::{str_eq, str_starts_with, u32_to_oct, u64_to_dec, join_strings};

#[test]
fn segments_drop_empty_parts() {
    assert_eq!(path_segments("/a/b/c"), vec!["a", "b", "c"]);
    assert_eq!(path_segments("a//b/"), vec!["a", "b"]);
    assert_eq!(path_segments("///"), Vec::<String>::new());
    assert_eq!(path_segments(""), Vec::<String>::new());
}

#[test]
fn prefixes_grow_one_segment_at_a_time() {
    assert_eq!(dir_prefixes("/a/b/c"), vec!["/a", "/a/b", "/a/b/c"]);
    assert_eq!(dir_prefixes("a/b"), vec!["a", "a/b"]);
    assert_eq!(dir_prefixes("/"), Vec::<String>::new());
}

#[test]
fn trailing_slashes_are_trimmed() {
    assert_eq!(trim_trailing_slashes("/data///"), "/data");
    assert_eq!(trim_trailing_slashes("/data"), "/data");
    assert_eq!(trim_trailing_slashes("///"), "");
    assert_eq!(trim_trailing_slashes(""), "");
}

#[test]
fn base_names_skip_dot_entries() {
    assert_eq!(base_name_of("/home/me/report.pdf").as_deref(), Some("report.pdf"));
    assert_eq!(base_name_of("report.pdf").as_deref(), Some("report.pdf"));
    assert_eq!(base_name_of("/home/me/").as_deref(), Some("me"));
    assert_eq!(base_name_of("/"), None);
    assert_eq!(base_name_of("."), None);
    assert_eq!(base_name_of("a/.."), None);
}

#[test]
fn joining_under_a_directory_normalizes_the_slash() {
    assert_eq!(join_under_dir("/data/", "f.txt"), "/data/f.txt");
    assert_eq!(join_under_dir("/data", "f.txt"), "/data/f.txt");
}

#[test]
fn parents_worth_creating() {
    assert_eq!(parent_dir_to_create("/a/b/c.txt").as_deref(), Some("/a/b"));
    assert_eq!(parent_dir_to_create("a/b"), Some("a".to_string()));
    assert_eq!(parent_dir_to_create("/top.txt"), None, "the bare root is never created");
    assert_eq!(parent_dir_to_create("file.txt"), None);
    assert_eq!(parent_dir_to_create(""), None);
}

#[test]
fn decimal_and_octal_rendering() {
    assert_eq!(u64_to_dec(0), "0");
    assert_eq!(u64_to_dec(65535), "65535");
    assert_eq!(u64_to_dec(9007199254740993), "9007199254740993");
    assert_eq!(u32_to_oct(0), "0");
    assert_eq!(u32_to_oct(0o755), "755");
    assert_eq!(u32_to_oct(0o170000), "170000");
}

#[test]
fn string_helpers() {
    assert!(str_eq("abc", "abc"));
    assert!(!str_eq("abc", "abd"));
    assert!(str_starts_with("report.pdf", "rep"));
    assert!(str_starts_with("report.pdf", ""));
    assert!(!str_starts_with("re", "rep"));
    let parts = vec!["a".to_string(), "b".to_string(), "c".to_string()];
    assert_eq!(join_strings(&parts, " && "), "a && b && c");
    assert_eq!(join_strings(&Vec::new(), ", "), "");
}
