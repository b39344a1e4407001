use changyan::model::{
    format_download_error, http_failure_detail, is_kept_archive_member, model_files_from_archive,
    path_file_name, resolve_model_tarball_url, select_model_members, DEFAULT_MODEL_TARBALL_URL,
};
use std::io::Write;

fn tar_bz2(members: &[(&str, &[u8])]) -> Vec<u8> {
    let mut builder = tar::Builder::new(Vec::new());
    for (path, data) in members {
        let mut header = tar::Header::new_gnu();
        header.set_size(data.len() as u64);
        header.set_mode(0o644);
        header.set_cksum();
        builder.append_data(&mut header, path, *data).unwrap();
    }
    let tar_bytes = builder.into_inner().unwrap();
    let mut enc = bzip2::write::BzEncoder::new(Vec::new(), bzip2::Compression::default());
    enc.write_all(&tar_bytes).unwrap();
    enc.finish().unwrap()
}

#[test]
fn uses_default_model_tarball_url_when_override_missing() {
    assert_eq!(
        resolve_model_tarball_url(None),
        "https://dtcdata.oss-cn-shanghai.aliyuncs.com/skills/changyan/sensevoice-small.tar.bz2"
    );
}

#[test]
fn prefers_override_model_tarball_url_when_present() {
    assert_eq!(
        resolve_model_tarball_url(Some("https://cdn.example.com/model.tar.bz2")),
        "https://cdn.example.com/model.tar.bz2"
    );
}

#[test]
fn ignores_blank_override_model_tarball_url() {
    assert_eq!(
        resolve_model_tarball_url(Some("   ")),
        DEFAULT_MODEL_TARBALL_URL
    );
}

#[test]
fn includes_model_url_in_download_error_message() {
    let message = format_download_error(
        "https://cdn.example.com/model.tar.bz2",
        "Download failed: HTTP 403",
    );
    assert_eq!(
        message,
        "Download failed: HTTP 403 (url: https://cdn.example.com/model.tar.bz2)"
    );
}

#[test]
fn override_url_is_trimmed() {
    assert_eq!(
        resolve_model_tarball_url(Some("  https://mirror.example.org/m.tar.bz2\n")),
        "https://mirror.example.org/m.tar.bz2"
    );
}

#[test]
fn http_failure_detail_names_the_status() {
    assert_eq!(http_failure_detail("404 Not Found"), "Download failed: HTTP 404 Not Found");
}

#[test]
fn only_model_and_tokens_are_unpacked() {
    assert!(is_kept_archive_member("model.int8.onnx"));
    assert!(is_kept_archive_member("tokens.txt"));
    assert!(!is_kept_archive_member("model.onnx"));
    assert!(!is_kept_archive_member("README.md"));
}

#[test]
fn file_names_of_archive_paths() {
    assert_eq!(path_file_name("sensevoice/model.int8.onnx").as_deref(), Some("model.int8.onnx"));
    assert_eq!(path_file_name("tokens.txt").as_deref(), Some("tokens.txt"));
    assert_eq!(path_file_name("a/b/./").as_deref(), Some("b"));
    assert_eq!(path_file_name("a//b/").as_deref(), Some("b"));
    assert_eq!(path_file_name("a/.."), None);
    assert_eq!(path_file_name("."), None);
    assert_eq!(path_file_name("./"), None);
    assert_eq!(path_file_name("/"), None);
    assert_eq!(path_file_name(""), None);
    assert_eq!(path_file_name("..."), Some("...".to_string()));
}

#[test]
fn selection_keeps_model_files_in_order() {
    let members = vec![
        ("pkg/README.md".to_string(), b"readme".to_vec()),
        ("pkg/tokens.txt".to_string(), b"tok".to_vec()),
        ("pkg/model.int8.onnx".to_string(), b"weights".to_vec()),
        ("pkg/model.onnx".to_string(), b"big".to_vec()),
    ];
    let kept = select_model_members(Ok(members)).unwrap();
    assert_eq!(
        kept,
        vec![
            ("tokens.txt".to_string(), b"tok".to_vec()),
            ("model.int8.onnx".to_string(), b"weights".to_vec()),
        ]
    );
    assert_eq!(select_model_members(Err("broken".to_string())), Err("broken".to_string()));
}

#[test]
fn unpacks_model_files_from_tar_bz2() {
    let archive = tar_bz2(&[
        ("sensevoice-small/model.int8.onnx", b"onnx-bytes"),
        ("sensevoice-small/README.md", b"docs"),
        ("sensevoice-small/tokens.txt", b"a 0\nb 1\n"),
    ]);
    let files = model_files_from_archive(&archive).unwrap();
    assert_eq!(
        files,
        vec![
            ("model.int8.onnx".to_string(), b"onnx-bytes".to_vec()),
            ("tokens.txt".to_string(), b"a 0\nb 1\n".to_vec()),
        ]
    );
}

#[test]
fn broken_archive_is_an_error() {
    assert!(model_files_from_archive(b"not an archive").is_err());
}
