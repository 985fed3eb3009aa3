use serial_stamp::errors::WsError;
use serial_stamp::registry::{get_workspace_dir, workspace_dir_for, workspace_new, workspaces};

#[test]
fn three_creates_yield_distinct_ids_and_dirs() {
    let mut state = workspaces();
    let a = workspace_new(&mut state, "/tmp").unwrap();
    let b = workspace_new(&mut state, "/tmp").unwrap();
    let c = workspace_new(&mut state, "/tmp").unwrap();
    assert_ne!(a.workspace_id, b.workspace_id);
    assert_ne!(a.workspace_id, c.workspace_id);
    assert_ne!(b.workspace_id, c.workspace_id);
    assert_ne!(a.workspace_dir, b.workspace_dir);
    assert_ne!(a.workspace_dir, c.workspace_dir);
    assert_ne!(b.workspace_dir, c.workspace_dir);
    assert_eq!(get_workspace_dir(&state, &a.workspace_id).unwrap(), a.workspace_dir);
    assert_eq!(get_workspace_dir(&state, &b.workspace_id).unwrap(), b.workspace_dir);
    assert_eq!(get_workspace_dir(&state, &c.workspace_id).unwrap(), c.workspace_dir);
}

#[test]
fn created_ids_look_like_hyphenated_uuids() {
    let mut state = workspaces();
    let a = workspace_new(&mut state, "/tmp").unwrap();
    assert_eq!(a.workspace_id.chars().count(), 36);
    assert!(!a.workspace_id.contains('/'));
    assert_eq!(a.workspace_dir, format!("/tmp/serial-stamp-workspaces/{}", a.workspace_id));
}

#[test]
fn unknown_id_fails_distinctly() {
    let state = workspaces();
    let r = state.resolve("nonexistent-id");
    match r {
        Err(WsError::UnknownWorkspace(id)) => assert_eq!(id, "nonexistent-id"),
        other => panic!("expected UnknownWorkspace, got {:?}", other),
    }
}

#[test]
fn register_declines_a_duplicate_id() {
    let mut state = workspaces();
    assert!(state.register("id-1".to_string(), "/a".to_string()));
    assert!(!state.register("id-1".to_string(), "/b".to_string()));
    assert_eq!(state.resolve("id-1").unwrap(), "/a");
}

#[test]
fn workspace_dir_embeds_root_and_id() {
    assert_eq!(workspace_dir_for("/tmp", "abc"), "/tmp/serial-stamp-workspaces/abc");
}
