use one_archive::api::api_operations::validate_archive_group;
use one_archive::api::config::{
    default_app_config, default_workspace_config, is_blank_config, merge_with_defaults,
    resolve_app_config, AppConfig, LastSettings, Workspace,
};
use one_archive::api::workspace::{
    add_created_workspace, default_workspace_app_config, import_workspace, remove_workspace,
    CreateWorkspaceParams, ImportWorkspaceParams, RemoveWorkspaceParams,
};
use one_archive::config::{workspaces_from_entries, AppSettings, WorkspaceEntry};

fn ws(name: &str, path: &str) -> Workspace {
    Workspace { name: name.to_string(), path: path.to_string() }
}

fn config_with(list: Vec<Workspace>) -> AppConfig {
    let mut c = default_app_config("/home/.onearchive/workspace/default".to_string());
    c.workspace = list;
    c
}

fn paths(c: &AppConfig) -> Vec<String> {
    c.workspace.iter().map(|w| w.path.clone()).collect()
}

#[test]
fn default_configuration() {
    let c = default_app_config("/w/default".to_string());
    assert!(c.workspace.is_empty());
    let s: &LastSettings = &c.last_settings;
    assert_eq!(s.last_workspace, "/w/default");
    assert_eq!(s.last_root, None);
    assert_eq!(s.last_db_path, None);
    assert_eq!((s.window_width, s.window_height, s.window_x, s.window_y), (1000, 680, 100, 100));
    let merged = merge_with_defaults(c.clone()).unwrap();
    assert_eq!(merged.last_settings.last_workspace, "/w/default");
    let fresh = default_workspace_app_config("/w/ws".to_string());
    assert_eq!(fresh.workspace.len(), 1);
    assert_eq!(fresh.workspace[0].name, "默认工作区");
    assert_eq!(fresh.workspace[0].path, "/w/ws");
    assert_eq!(fresh.last_settings.last_workspace, "/w/ws");
    let wc = default_workspace_config("/w/ws/default.sqlite".to_string());
    assert_eq!(wc.db_path.as_deref(), Some("/w/ws/default.sqlite"));
    assert_eq!(wc.auto_create_db, Some(true));
    assert_eq!(wc.recursive_scan, Some(true));
    assert_eq!(wc.follow_symlinks, Some(false));
}

#[test]
fn blank_configuration_text() {
    assert!(is_blank_config(""));
    assert!(is_blank_config("   \n\t"));
    assert!(is_blank_config("{}"));
    assert!(is_blank_config("  {}  \n"));
    assert!(!is_blank_config("{ }"));
    assert!(is_blank_config("\u{3000}{}\u{a0}\u{2028}"));
    assert!(!is_blank_config("\u{200b}"));
    assert!(!is_blank_config("{\"workspace\": []}"));
}

#[test]
fn configuration_chosen_at_start() {
    let default = default_app_config("/d".to_string());
    let parsed = config_with(vec![ws("a", "/a")]);
    let (c, save) = resolve_app_config(None, None, default.clone());
    assert!(save);
    assert!(c.workspace.is_empty());
    let (c, save) = resolve_app_config(Some(" {} "), Some(parsed.clone()), default.clone());
    assert!(save);
    assert!(c.workspace.is_empty());
    let (c, save) = resolve_app_config(Some("not json"), None, default.clone());
    assert!(save);
    assert_eq!(c.last_settings.last_workspace, "/d");
    let (c, save) = resolve_app_config(Some("{\"workspace\":[]}"), Some(parsed), default);
    assert!(!save);
    assert_eq!(paths(&c), vec!["/a".to_string()]);
}

#[test]
fn import_then_remove_workspace() {
    let mut c = config_with(vec![ws("a", "/a"), ws("b", "/b")]);
    let before = paths(&c);
    let w = import_workspace(&mut c, ImportWorkspaceParams { path: "/c".into() }, "c".into()).unwrap();
    assert_eq!((w.name.as_str(), w.path.as_str()), ("c", "/c"));
    assert_eq!(paths(&c), vec!["/a", "/b", "/c"]);
    remove_workspace(&mut c, RemoveWorkspaceParams { path: "/c".into() });
    assert_eq!(paths(&c), before);
}

#[test]
fn import_refuses_a_known_path() {
    let mut c = config_with(vec![ws("a", "/a")]);
    let r = import_workspace(&mut c, ImportWorkspaceParams { path: "/a".into() }, "again".into());
    assert_eq!(r.unwrap_err(), "该工作区已存在");
    assert_eq!(paths(&c), vec!["/a"]);
    assert_eq!(c.workspace[0].name, "a");
}

#[test]
fn remove_keeps_the_others_in_order() {
    let mut c = config_with(vec![ws("a", "/a"), ws("b", "/b"), ws("a2", "/a"), ws("c", "/c")]);
    remove_workspace(&mut c, RemoveWorkspaceParams { path: "/a".into() });
    assert_eq!(paths(&c), vec!["/b", "/c"]);
    remove_workspace(&mut c, RemoveWorkspaceParams { path: "/zzz".into() });
    assert_eq!(paths(&c), vec!["/b", "/c"]);
    assert_eq!(c.last_settings.window_width, 1000);
}

#[test]
fn archive_group_checks() {
    assert_eq!(validate_archive_group(0, &[], 3).unwrap_err(), "归档文件组不能为空");
    assert_eq!(
        validate_archive_group(1, &[1, 2], 3).unwrap_err(),
        "第2组归档文件数量 (2) 与数据分片数 (3) 不匹配"
    );
    assert!(validate_archive_group(4, &[1, 2, 3], 3).is_ok());
}

#[test]
fn first_settings_and_workspace_list() {
    let s = AppSettings::default();
    assert!(s.last_workspace.is_none() && s.last_root.is_none() && s.last_db_path.is_none());
    assert!(s.window_width.is_none() && s.window_height.is_none());
    assert!(s.window_x.is_none() && s.window_y.is_none());
    let entries = vec![
        WorkspaceEntry { name: Some("a".into()), path: Some("/a".into()) },
        WorkspaceEntry { name: None, path: Some("/x".into()) },
        WorkspaceEntry { name: Some("b".into()), path: None },
        WorkspaceEntry { name: Some("c".into()), path: Some("/c".into()) },
    ];
    let list = workspaces_from_entries(entries);
    let got: Vec<(String, String)> = list.into_iter().map(|w| (w.name, w.path)).collect();
    assert_eq!(got, vec![("a".to_string(), "/a".to_string()), ("c".to_string(), "/c".to_string())]);
    assert!(workspaces_from_entries(vec![]).is_empty());
}

#[test]
fn created_workspace_goes_last() {
    let mut c = config_with(vec![ws("a", "/a")]);
    add_created_workspace(&mut c, &CreateWorkspaceParams { name: "n".into(), path: "/n".into() });
    assert_eq!(paths(&c), vec!["/a", "/n"]);
    assert_eq!(c.workspace[1].name, "n");
    assert_eq!(c.last_settings.window_height, 680);
}
