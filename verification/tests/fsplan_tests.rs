use serial_stamp::errors::WsError;
use serial_stamp::fsplan::{
    default_spec_toml, file_name_part, is_valid_category, plan_add_file, plan_list_files,
    plan_remove_file, spec_path_for, spec_text_or_default, workspace_layout_dirs,
};

const DEFAULT_DOC: &str = "stack-size = 1\nsource-image = \"\"\n\n[layout]\ngrid-size = [1, 1]\ngap = 0\nmargin = 0\n\n[[texts]]\ntemplate = \"Sample Text\"\nposition = [10, 10]\nsize = 24\ncolor = \"black\"\n";

#[test]
fn spec_path_is_under_the_workspace() {
    assert_eq!(spec_path_for("/w/x"), "/w/x/spec.toml");
}

#[test]
fn layout_dirs_are_images_and_fonts() {
    let dirs = workspace_layout_dirs("/w");
    assert_eq!(dirs, vec!["/w/images".to_string(), "/w/fonts".to_string()]);
}

#[test]
fn fresh_workspace_read_yields_the_default_document() {
    assert_eq!(spec_text_or_default(None), DEFAULT_DOC);
    assert_eq!(default_spec_toml(), DEFAULT_DOC);
}

#[test]
fn present_spec_is_returned_verbatim() {
    assert_eq!(spec_text_or_default(Some("stack-size = 9".to_string())), "stack-size = 9");
}

#[test]
fn only_images_and_fonts_are_categories() {
    assert!(is_valid_category("images"));
    assert!(is_valid_category("fonts"));
    assert!(!is_valid_category("assets"));
    assert!(!is_valid_category(""));
}

#[test]
fn file_name_is_the_last_component() {
    assert_eq!(file_name_part("/home/u/pic.png"), "pic.png");
    assert_eq!(file_name_part("pic.png"), "pic.png");
    assert_eq!(file_name_part("/home/u/"), "");
}

#[test]
fn add_file_plans_copy_and_relative_path() {
    let plan = plan_add_file("/w", "/home/u/pic.png", "images").unwrap();
    assert_eq!(plan.filename, "pic.png");
    assert_eq!(plan.dest_dir, "/w/images");
    assert_eq!(plan.dest_path, "/w/images/pic.png");
    assert_eq!(plan.rel_path, "images/pic.png");
}

#[test]
fn add_file_rejects_bad_category_and_bad_source() {
    assert!(matches!(plan_add_file("/w", "/home/u/p.png", "videos"), Err(WsError::InvalidCategory)));
    assert!(matches!(plan_add_file("/w", "/home/u/", "images"), Err(WsError::InvalidPath)));
    assert!(matches!(plan_add_file("/w", "/home/u/..", "fonts"), Err(WsError::InvalidPath)));
}

#[test]
fn remove_rejects_traversal_without_deleting() {
    let r = plan_remove_file("/w", "images", "../../etc/passwd");
    assert!(matches!(r, Err(WsError::InvalidPath)));
    assert!(matches!(plan_remove_file("/w", "images", "images/.."), Err(WsError::InvalidPath)));
    assert!(matches!(
        plan_remove_file("/w", "images", "images/../x.png"),
        Err(WsError::InvalidPath)
    ));
}

#[test]
fn remove_accepts_dots_inside_a_name() {
    assert_eq!(
        plan_remove_file("/w", "images", "images/a..b.png").unwrap(),
        "/w/images/a..b.png"
    );
}

#[test]
fn remove_rejects_paths_outside_the_category() {
    let r = plan_remove_file("/w", "images", "fonts/a.ttf");
    assert!(matches!(r, Err(WsError::PathEscape)));
}

#[test]
fn remove_accepts_a_file_inside_the_category() {
    assert_eq!(plan_remove_file("/w", "images", "images/a.png").unwrap(), "/w/images/a.png");
}

#[test]
fn list_files_sorts_and_prefixes() {
    let names = vec!["b.png".to_string(), "a.png".to_string(), "c.png".to_string()];
    let r = plan_list_files("images", names).unwrap();
    assert_eq!(
        r,
        vec!["images/a.png".to_string(), "images/b.png".to_string(), "images/c.png".to_string()]
    );
}

#[test]
fn list_files_rejects_a_bad_category() {
    assert!(matches!(plan_list_files("videos", Vec::new()), Err(WsError::InvalidCategory)));
}

#[test]
fn list_files_of_nothing_is_empty() {
    assert_eq!(plan_list_files("fonts", Vec::new()).unwrap(), Vec::<String>::new());
}
