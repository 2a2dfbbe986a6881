use sshbridge::editable::{editable_lowered, is_content_editable, INLINE_EDIT_CEILING};

#[test]
fn text_extensions_are_editable_case_insensitively() {
    assert!(is_content_editable("notes.txt", 10));
    assert!(is_content_editable("NOTES.TXT", 10), "the name is folded before matching");
    assert!(is_content_editable("Config.YAML", 10));
    assert!(is_content_editable("lib.rs", 10));
    assert!(is_content_editable("archive.tar.gz", 10) == false);
    assert!(is_content_editable("photo.jpg", 10) == false);
}

#[test]
fn bare_names_are_editable() {
    assert!(is_content_editable("Dockerfile", 10));
    assert!(is_content_editable("makefile", 10));
    assert!(is_content_editable("Procfile", 10));
    assert!(is_content_editable("Caddyfile", 10));
    assert!(!is_content_editable("README", 10), "a bare unknown name is not editable");
}

#[test]
fn leading_dot_names_have_no_extension() {
    assert!(!is_content_editable(".gitignore", 10));
    assert!(is_content_editable("x.gitignore", 10));
    assert!(!is_content_editable(".", 10));
    assert!(!is_content_editable("..", 10));
    assert!(!is_content_editable("name.", 10), "an empty extension matches nothing");
}

#[test]
fn the_size_ceiling_gates_editing() {
    assert!(is_content_editable("big.txt", INLINE_EDIT_CEILING));
    assert!(!is_content_editable("big.txt", INLINE_EDIT_CEILING + 1));
}

#[test]
fn already_lowered_names_skip_the_fold() {
    assert!(editable_lowered("a.md", 10));
    assert!(!editable_lowered("a.md", INLINE_EDIT_CEILING + 1));
    assert!(!editable_lowered("a.bin", 10));
}
