use serial_stamp::archive::{is_dir_entry, parent_dir, safe_entry_dest, zip_entry_name};
use serial_stamp::errors::WsError;
use serial_stamp::preview::{preview_args, preview_outcome, preview_output_path, renderer_root_marker};

#[test]
fn entry_names_are_workspace_relative() {
    assert_eq!(zip_entry_name("/w", "/w/images/a.png").unwrap(), "images/a.png");
    assert_eq!(zip_entry_name("/w", "/w/spec.toml").unwrap(), "spec.toml");
    assert_eq!(zip_entry_name("/w", "/elsewhere/a.png"), None);
    assert_eq!(zip_entry_name("/w", "/wider/a.png"), None);
}

#[test]
fn entry_names_normalize_separators() {
    assert_eq!(zip_entry_name("/w", "/w/images\\a.png").unwrap(), "images/a.png");
}

#[test]
fn packed_entries_unpack_to_the_same_relative_path() {
    let rel = zip_entry_name("/old", "/old/fonts/b.ttf").unwrap();
    assert_eq!(safe_entry_dest("/new", &rel).unwrap(), "/new/fonts/b.ttf");
    let rel2 = zip_entry_name("/old", "/old/spec.toml").unwrap();
    assert_eq!(safe_entry_dest("/new", &rel2).unwrap(), "/new/spec.toml");
}

#[test]
fn unsafe_entries_are_skipped() {
    assert_eq!(safe_entry_dest("/new", "../evil"), None);
    assert_eq!(safe_entry_dest("/new", "a/../b"), None);
    assert_eq!(safe_entry_dest("/new", "a/.."), None);
    assert_eq!(safe_entry_dest("/new", "/absolute"), None);
    assert_eq!(safe_entry_dest("/new", ""), None);
}

#[test]
fn dots_inside_a_name_are_not_traversal() {
    assert_eq!(safe_entry_dest("/new", "images/a..b.png").unwrap(), "/new/images/a..b.png");
}

#[test]
fn directory_entries_end_in_a_separator() {
    assert!(is_dir_entry("images/"));
    assert!(!is_dir_entry("images/a.png"));
    assert!(!is_dir_entry(""));
}

#[test]
fn parent_dir_walks_upward() {
    assert_eq!(parent_dir("/a/b/c").unwrap(), "/a/b");
    assert_eq!(parent_dir("/a").unwrap(), "");
    assert_eq!(parent_dir("abc"), None);
}

#[test]
fn renderer_invocation_is_fully_determined() {
    assert_eq!(preview_output_path("/w"), "/w/preview.png");
    assert_eq!(renderer_root_marker(), "pyproject.toml");
    let args = preview_args("/w", "/w/preview.png");
    assert_eq!(args, vec!["run", "serial-stamp", "preview", "/w", "-o", "/w/preview.png"]);
}

#[test]
fn failed_run_reports_captured_output() {
    let r = preview_outcome(false, "out text".to_string(), "err text".to_string(), None);
    match r {
        Err(WsError::Renderer(msg)) => {
            assert_eq!(msg, "Preview generation failed.\nStdout: out text\nStderr: err text");
        },
        other => panic!("expected Renderer error, got {:?}", other),
    }
}

#[test]
fn missing_output_file_fails_distinctly() {
    let r = preview_outcome(true, String::new(), String::new(), None);
    match r {
        Err(WsError::Renderer(msg)) => assert_eq!(msg, "Preview file was not created"),
        other => panic!("expected Renderer error, got {:?}", other),
    }
}

#[test]
fn produced_image_comes_back_base64_encoded() {
    let r = preview_outcome(true, String::new(), String::new(), Some(vec![1u8, 2, 3]));
    assert_eq!(r.unwrap(), "AQID");
    let empty = preview_outcome(true, String::new(), String::new(), Some(Vec::new()));
    assert_eq!(empty.unwrap(), "");
}

#[test]
fn error_messages_name_the_failure() {
    assert_eq!(
        WsError::UnknownWorkspace("xyz".to_string()).message(),
        "Unknown workspace id: xyz"
    );
    assert_eq!(WsError::InvalidCategory.message(), "Invalid category. Must be 'images' or 'fonts'");
    assert_eq!(WsError::InvalidPath.message(), "Invalid filename");
    assert_eq!(WsError::PathEscape.message(), "Invalid file path");
}
