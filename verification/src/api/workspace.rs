//! Workspace bookkeeping in the application configuration.
use vstd::prelude::*;
use super::config::{spec_default_last_settings, AppConfig, LastSettings, Workspace};
use super::config::{DEFAULT_WINDOW_HEIGHT, DEFAULT_WINDOW_WIDTH, DEFAULT_WINDOW_X, DEFAULT_WINDOW_Y};

verus! {

/// Parameters for creating a workspace.
#[derive(Debug, Clone)]
pub struct CreateWorkspaceParams {
    pub name: String,
    pub path: String,
}

/// Parameters for importing an existing workspace directory.
#[derive(Debug, Clone)]
pub struct ImportWorkspaceParams {
    pub path: String,
}

/// Parameters for removing a workspace from the configuration.
#[derive(Debug, Clone)]
pub struct RemoveWorkspaceParams {
    pub path: String,
}

/// The name given to the default workspace.
pub open spec fn spec_default_workspace_name() -> Seq<char> {
    "默认工作区"@
}

/// Whether some workspace in `ws` has path `path`.
pub open spec fn has_workspace_path(ws: Seq<Workspace>, path: Seq<char>) -> bool {
    exists|i: int| 0 <= i < ws.len() && (#[trigger] ws[i]).path@ == path
}

/// The workspaces of `ws` whose path is not `path`, in their order.
pub open spec fn workspaces_without_path(ws: Seq<Workspace>, path: Seq<char>) -> Seq<Workspace>
    decreases ws.len(),
{
    if ws.len() == 0 {
        ws
    } else {
        let rest = workspaces_without_path(ws.drop_last(), path);
        if ws.last().path@ == path {
            rest
        } else {
            rest.push(ws.last())
        }
    }
}

/// The error given when a workspace is imported twice.
pub open spec fn spec_duplicate_workspace_message() -> Seq<char> {
    "该工作区已存在"@
}

/// Adds an existing directory as a workspace named `workspace_name` (the
/// directory's own name) and returns it; a path that is already a workspace
/// is refused and the configuration is left as it was.
pub fn import_workspace(
    config: &mut AppConfig,
    params: ImportWorkspaceParams,
    workspace_name: String,
) -> (r: Result<Workspace, String>)
    ensures
        has_workspace_path(old(config).workspace@, params.path@) ==> (r matches Err(m)
            && m@ == spec_duplicate_workspace_message() && *final(config) == *old(config)),
        !has_workspace_path(old(config).workspace@, params.path@) ==> (r matches Ok(w)
            && w == (Workspace { name: workspace_name, path: params.path })
            && final(config).workspace@ == old(config).workspace@.push(w)
            && final(config).last_settings == old(config).last_settings),
{
    let mut i: usize = 0;
    while i < config.workspace.len()
        invariant
            i <= config.workspace@.len(),
            *config == *old(config),
            forall|k: int| 0 <= k < i ==> (#[trigger] config.workspace@[k]).path@ != params.path@,
        decreases config.workspace@.len() - i,
    {
        if config.workspace[i].path == params.path {
            return Err("该工作区已存在".to_owned());
        }
        i = i + 1;
    }
    let w = Workspace { name: workspace_name.clone(), path: params.path.clone() };
    config.workspace.push(w);
    Ok(Workspace { name: workspace_name, path: params.path })
}

/// Adds a workspace created in an empty directory to the configuration,
/// after the workspaces already known; the last settings stay as they were.
pub fn add_created_workspace(config: &mut AppConfig, params: &CreateWorkspaceParams)
    ensures
        final(config).workspace@ == old(config).workspace@.push(
            Workspace { name: params.name, path: params.path },
        ),
        final(config).last_settings == old(config).last_settings,
{
    config.workspace.push(Workspace { name: params.name.clone(), path: params.path.clone() });
}

/// Removes every workspace with the given path from the configuration (the
/// directory itself is kept); the others stay in their order.
pub fn remove_workspace(config: &mut AppConfig, params: RemoveWorkspaceParams)
    ensures
        final(config).workspace@ == workspaces_without_path(old(config).workspace@, params.path@),
        final(config).last_settings == old(config).last_settings,
{
    let mut kept: Vec<Workspace> = Vec::new();
    let mut old_list: Vec<Workspace> = Vec::new();
    std::mem::swap(&mut old_list, &mut config.workspace);
    let ghost all = old_list@;
    let n = old_list.len();
    let mut i: usize = 0;
    while i < n
        invariant
            n == all.len(),
            i <= n,
            old_list@ == all.subrange(i as int, n as int),
            kept@ == workspaces_without_path(all.subrange(0, i as int), params.path@),
        decreases n - i,
    {
        let w = old_list.remove(0);
        proof {
            assert(all.subrange(0, i + 1).drop_last() =~= all.subrange(0, i as int));
            assert(all.subrange(0, i + 1).last() == w);
            assert(old_list@ =~= all.subrange(i + 1, n as int));
        }
        if w.path != params.path {
            kept.push(w);
        }
        i = i + 1;
    }
    proof {
        assert(all.subrange(0, n as int) =~= all);
    }
    config.workspace = kept;
}

/// The configuration of a fresh installation: the default workspace at
/// `default_workspace_path` is the only workspace and the last one used.
pub fn default_workspace_app_config(default_workspace_path: String) -> (r: AppConfig)
    ensures
        r.workspace@.len() == 1,
        r.workspace@[0].name@ == spec_default_workspace_name(),
        r.workspace@[0].path == default_workspace_path,
        r.last_settings == spec_default_last_settings(default_workspace_path),
{
    let mut workspaces: Vec<Workspace> = Vec::new();
    workspaces.push(Workspace { name: "默认工作区".to_owned(), path: default_workspace_path.clone() });
    AppConfig {
        workspace: workspaces,
        last_settings: LastSettings {
            last_workspace: default_workspace_path,
            last_root: None,
            last_db_path: None,
            window_width: DEFAULT_WINDOW_WIDTH,
            window_height: DEFAULT_WINDOW_HEIGHT,
            window_x: DEFAULT_WINDOW_X,
            window_y: DEFAULT_WINDOW_Y,
        },
    }
}

/// Removal keeps exactly the other workspaces: every workspace whose path is
/// not the removed one stays, and nothing else is left.
pub proof fn lemma_remove_keeps_the_others(ws: Seq<Workspace>, path: Seq<char>)
    ensures
        forall|i: int|
            0 <= i < ws.len() && (#[trigger] ws[i]).path@ != path ==> workspaces_without_path(
                ws,
                path,
            ).contains(ws[i]),
        forall|k: int|
            0 <= k < workspaces_without_path(ws, path).len() ==> ws.contains(
                #[trigger] workspaces_without_path(ws, path)[k],
            ) && workspaces_without_path(ws, path)[k].path@ != path,
        workspaces_without_path(ws, path).len() <= ws.len(),
    decreases ws.len(),
{
    if ws.len() > 0 {
        let rest = ws.drop_last();
        lemma_remove_keeps_the_others(rest, path);
        let r = workspaces_without_path(rest, path);
        let last = ws.len() - 1;
        assert(ws.last() == ws[last]);
        assert forall|i: int|
            0 <= i < ws.len() && (#[trigger] ws[i]).path@ != path implies workspaces_without_path(
                ws,
                path,
            ).contains(ws[i]) by {
            if i < last {
                assert(rest[i] == ws[i]);
                assert(r.contains(ws[i]));
                let j = choose|j: int| 0 <= j < r.len() && r[j] == ws[i];
                if ws.last().path@ != path {
                    assert(r.push(ws.last())[j] == ws[i]);
                }
            } else {
                assert(r.push(ws.last())[r.len() as int] == ws[i]);
            }
        }
        assert forall|k: int|
            0 <= k < workspaces_without_path(ws, path).len() implies ws.contains(
                #[trigger] workspaces_without_path(ws, path)[k],
            ) && workspaces_without_path(ws, path)[k].path@ != path by {
            let out = workspaces_without_path(ws, path);
            if k < r.len() {
                if ws.last().path@ != path {
                    assert(out[k] == r[k]);
                }
                assert(rest.contains(r[k]));
                let j = choose|j: int| 0 <= j < rest.len() && rest[j] == r[k];
                assert(ws[j] == rest[j]);
            } else {
                assert(out[k] == ws.last());
                assert(ws[last] == ws.last());
            }
        }
    }
}

/// Removing a path that no workspace has changes nothing.
pub proof fn lemma_without_absent_path(ws: Seq<Workspace>, path: Seq<char>)
    requires
        !has_workspace_path(ws, path),
    ensures
        workspaces_without_path(ws, path) == ws,
    decreases ws.len(),
{
    if ws.len() > 0 {
        assert(!has_workspace_path(ws.drop_last(), path)) by {
            if has_workspace_path(ws.drop_last(), path) {
                let i = choose|i: int|
                    0 <= i < ws.drop_last().len() && (#[trigger] ws.drop_last()[i]).path@ == path;
                assert(ws[i] == ws.drop_last()[i]);
            }
        }
        lemma_without_absent_path(ws.drop_last(), path);
        assert(ws.last() == ws[ws.len() - 1]);
        assert(ws.drop_last().push(ws.last()) =~= ws);
    }
}

/// After a removal no workspace has the removed path.
pub proof fn lemma_without_path_removes(ws: Seq<Workspace>, path: Seq<char>)
    ensures
        !has_workspace_path(workspaces_without_path(ws, path), path),
    decreases ws.len(),
{
    if ws.len() > 0 {
        lemma_without_path_removes(ws.drop_last(), path);
        let rest = workspaces_without_path(ws.drop_last(), path);
        if ws.last().path@ != path {
            assert forall|i: int| 0 <= i < rest.push(ws.last()).len() implies (#[trigger] rest.push(
                ws.last(),
            )[i]).path@ != path by {
                if i < rest.len() {
                    assert(rest.push(ws.last())[i] == rest[i]);
                }
            }
        }
    }
}

/// Importing a workspace and then removing its path gives back the list of
/// workspaces from before the import; removing a path twice is the same as
/// removing it once.
pub proof fn lemma_import_then_remove(ws: Seq<Workspace>, w: Workspace)
    requires
        !has_workspace_path(ws, w.path@),
    ensures
        workspaces_without_path(ws.push(w), w.path@) == ws,
        workspaces_without_path(workspaces_without_path(ws, w.path@), w.path@)
            == workspaces_without_path(ws, w.path@),
{
    assert(ws.push(w).drop_last() =~= ws);
    lemma_without_absent_path(ws, w.path@);
    lemma_without_path_removes(ws, w.path@);
    lemma_without_absent_path(workspaces_without_path(ws, w.path@), w.path@);
}

} // verus!
