use std::path::{Path, PathBuf};

use pdf_encrypt::encrypted_output_path;

#[test]
fn test_output_path_basic() {
    let result = encrypted_output_path("/tmp/report.pdf");
    assert_eq!(PathBuf::from(result), PathBuf::from("/tmp/report_encrypted.pdf"));
}

#[test]
fn test_output_path_no_extension() {
    let result = encrypted_output_path("/tmp/report");
    assert_eq!(PathBuf::from(result), PathBuf::from("/tmp/report_encrypted.pdf"));
}

#[test]
fn test_output_path_nested() {
    let result = encrypted_output_path("/home/user/docs/my file.pdf");
    assert_eq!(
        PathBuf::from(result),
        PathBuf::from("/home/user/docs/my file_encrypted.pdf")
    );
}

#[test]
fn test_output_path_relative() {
    let result = encrypted_output_path("test.pdf");
    assert_eq!(PathBuf::from(result), PathBuf::from("test_encrypted.pdf"));
}

#[test]
fn output_path_text_is_exact() {
    assert_eq!(encrypted_output_path("/tmp/report.pdf"), "/tmp/report_encrypted.pdf");
    assert_eq!(encrypted_output_path("test.pdf"), "test_encrypted.pdf");
}

#[test]
fn output_path_replaces_only_the_last_extension() {
    assert_eq!(encrypted_output_path("/a/b.tar.gz"), "/a/b.tar_encrypted.pdf");
    assert_eq!(encrypted_output_path("scan.PDF"), "scan_encrypted.pdf");
}

#[test]
fn output_path_leading_dot_is_no_extension() {
    assert_eq!(encrypted_output_path("/home/u/.hidden"), "/home/u/.hidden_encrypted.pdf");
}

#[test]
fn output_path_dots_in_directory_are_kept() {
    assert_eq!(encrypted_output_path("/v1.2/report"), "/v1.2/report_encrypted.pdf");
    assert_eq!(encrypted_output_path("./in.pdf"), "./in_encrypted.pdf");
}

#[test]
fn output_path_edge_cases() {
    assert_eq!(encrypted_output_path(""), "./_encrypted.pdf");
    assert_eq!(encrypted_output_path("/"), "./_encrypted.pdf");
    assert_eq!(encrypted_output_path("/x.pdf"), "/x_encrypted.pdf");
    assert_eq!(encrypted_output_path("/tmp/r\u{e9}sum\u{e9}.pdf"), "/tmp/r\u{e9}sum\u{e9}_encrypted.pdf");
}

#[test]
fn output_path_trailing_separator_names_the_directory() {
    assert_eq!(encrypted_output_path("/tmp/"), "/tmp_encrypted.pdf");
    assert_eq!(encrypted_output_path("/tmp//"), "/tmp_encrypted.pdf");
    assert_eq!(encrypted_output_path("/tmp/."), "/tmp_encrypted.pdf");
    assert_eq!(encrypted_output_path("docs/"), "docs_encrypted.pdf");
}

#[test]
fn output_path_dot_components_have_empty_stem() {
    assert_eq!(encrypted_output_path("."), "_encrypted.pdf");
    assert_eq!(encrypted_output_path(".."), "_encrypted.pdf");
    assert_eq!(encrypted_output_path("/tmp/.."), "/tmp/_encrypted.pdf");
    assert_eq!(encrypted_output_path("/tmp/../"), "/tmp/_encrypted.pdf");
}

#[test]
fn output_path_separators_before_the_name_are_trimmed() {
    assert_eq!(encrypted_output_path("/a//b.pdf"), "/a/b_encrypted.pdf");
    assert_eq!(encrypted_output_path("/a/./b.pdf"), "/a/b_encrypted.pdf");
}

fn std_output_path(input: &str) -> PathBuf {
    let path = PathBuf::from(input);
    let stem = path.file_stem().unwrap_or_default().to_string_lossy();
    let parent = path.parent().unwrap_or(Path::new("."));
    parent.join(format!("{}_encrypted.pdf", stem))
}

#[test]
fn output_path_agrees_with_std_path() {
    let inputs = [
        "/tmp/report.pdf", "/tmp/report", "test.pdf", "", "/", "//", ".", "..", "./", "../",
        "/tmp/", "/tmp/.", "/tmp/..", "/tmp/./", "/tmp//", "a/b/", "a//b.pdf", "a/./b.pdf",
        "./in.pdf", "../in.pdf", "/a.b/c", "x.", "...", ".hidden", "/.hidden/", "a.tar.gz",
        "/home/user/docs/my file.pdf", "./.", "/./", ".//.", "a/../b", "/..",
    ];
    for input in inputs {
        let ours = encrypted_output_path(input);
        let expected = std_output_path(input);
        assert_eq!(Some(ours.as_str()), expected.to_str(), "input {:?}", input);
    }
}
