//! Tests for path derivations and macro transcription.

use tatum::katex::{decimal_string, macro_command, strip_macro_wrapper, MacroDef};
use tatum::paths::{file_stem, template_asset_path, with_extension};

#[test]
fn file_stem_drops_directory_and_extension() {
    assert_eq!(file_stem("dir/notes.md"), "notes");
    assert_eq!(file_stem("notes.md"), "notes");
    assert_eq!(file_stem("noext"), "noext");
}

#[test]
fn file_stem_keeps_hidden_files_whole() {
    assert_eq!(file_stem(".bashrc"), ".bashrc");
    assert_eq!(file_stem("dir/.config"), ".config");
}

#[test]
fn file_stem_drops_only_last_extension() {
    assert_eq!(file_stem("a.tar.gz"), "a.tar");
}

#[test]
fn with_extension_replaces_extension() {
    assert_eq!(with_extension("dir/doc.md", "html"), "dir/doc.html");
    assert_eq!(with_extension("doc.md", "tex"), "doc.tex");
}

#[test]
fn with_extension_appends_when_none() {
    assert_eq!(with_extension("doc", "pdf"), "doc.pdf");
    assert_eq!(with_extension("d.e/f", "tex"), "d.e/f.tex");
}

#[test]
fn template_asset_path_joins() {
    assert_eq!(template_asset_path("t", "macros.tex"), "t/macros.tex");
    assert_eq!(template_asset_path(".tatum/default", "page.html"), ".tatum/default/page.html");
}

#[test]
fn decimal_renders_exactly() {
    assert_eq!(decimal_string(0), "0");
    assert_eq!(decimal_string(7), "7");
    assert_eq!(decimal_string(10), "10");
    assert_eq!(decimal_string(12345), "12345");
    assert_eq!(decimal_string(u64::MAX), "18446744073709551615");
}

#[test]
fn macro_command_without_args() {
    let cmd = macro_command("\\RR", &MacroDef::Simple(String::from("\\mathbb{R}")));
    assert_eq!(cmd, "\\newcommand{\\RR}{\\mathbb{R}}\n");
}

#[test]
fn macro_command_with_args() {
    let cmd = macro_command("\\pow", &MacroDef::WithArgs(String::from("#1^{#2}"), 2));
    assert_eq!(cmd, "\\newcommand{\\pow}[2]{#1^{#2}}\n");
}

#[test]
fn strip_macro_wrapper_unwraps_assignment() {
    let s = strip_macro_wrapper("window.katexMacros = {\"a\": \"b\"};\n");
    assert_eq!(s, "{\"a\": \"b\"}");
}

#[test]
fn strip_macro_wrapper_without_wrapper() {
    assert_eq!(strip_macro_wrapper("  {\"x\": \"y\"}  "), "{\"x\": \"y\"}");
}

#[test]
fn strip_macro_wrapper_removes_every_semicolon() {
    // Statement semicolons are removed wherever they stand, string
    // contents included.
    assert_eq!(strip_macro_wrapper("{\"a\": \"x;y\"};"), "{\"a\": \"xy\"}");
}

#[test]
fn decimal_renders_round_numbers() {
    assert_eq!(decimal_string(100), "100");
    assert_eq!(decimal_string(1000), "1000");
}

#[test]
fn dot_in_directory_is_not_an_extension() {
    assert_eq!(file_stem("dir.d/file"), "file");
    assert_eq!(with_extension("dir.d/file", "html"), "dir.d/file.html");
}
