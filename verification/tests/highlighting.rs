//! Tests of the syntax-extension decision for the highlighter.

use editor_core::highlight::highlight_extension;

#[test]
fn extension_after_last_dot_of_final_component() {
    assert_eq!(highlight_extension("a/b.toml"), "toml");
    assert_eq!(highlight_extension("main.rs"), "rs");
    assert_eq!(highlight_extension("archive.tar.gz"), "gz");
}

#[test]
fn no_extension_falls_back_to_rust() {
    assert_eq!(highlight_extension(""), "rs");
    assert_eq!(highlight_extension("Makefile"), "rs");
    assert_eq!(highlight_extension("dir.v/file"), "rs");
    assert_eq!(highlight_extension("ends/"), "rs");
}

#[test]
fn hidden_files_have_no_extension() {
    assert_eq!(highlight_extension(".bashrc"), "rs");
    assert_eq!(highlight_extension("home/.bashrc"), "rs");
}
