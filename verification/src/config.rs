//! The first form of the application settings: `app_settings.json` beside a
//! workspace list kept in `config.json`, where each entry of the list is read
//! only when it carries both a name and a path.
use vstd::prelude::*;

verus! {

/// Settings remembered between sessions; every one of them may be absent.
#[derive(Debug, Clone)]
pub struct AppSettings {
    pub last_workspace: Option<String>,
    /// The root directory selected last.
    pub last_root: Option<i64>,
    /// The database used last.
    pub last_db_path: Option<String>,
    pub window_width: Option<u32>,
    pub window_height: Option<u32>,
    pub window_x: Option<i32>,
    pub window_y: Option<i32>,
}

impl Default for AppSettings {
    /// The settings used when no settings file exists: nothing remembered.
    fn default() -> (r: AppSettings)
        ensures
            r.last_workspace is None,
            r.last_root is None,
            r.last_db_path is None,
            r.window_width is None,
            r.window_height is None,
            r.window_x is None,
            r.window_y is None,
    {
        AppSettings {
            last_workspace: None,
            last_root: None,
            last_db_path: None,
            window_width: None,
            window_height: None,
            window_x: None,
            window_y: None,
        }
    }
}

/// A workspace known to the application.
#[derive(Debug, Clone)]
pub struct Workspace {
    pub name: String,
    pub path: String,
}

/// The configuration of one workspace.
#[derive(Debug, Clone)]
pub struct WorkspaceConfig {
    pub db_path: Option<String>,
    pub auto_create_db: Option<bool>,
    pub recursive_scan: Option<bool>,
    pub follow_symlinks: Option<bool>,
}

/// Parameters for creating a workspace.
#[derive(Debug, Clone)]
pub struct CreateWorkspaceParams {
    pub name: String,
    pub path: String,
}

/// Parameters for importing an existing workspace directory.
#[derive(Debug, Clone)]
pub struct ImportWorkspaceParams {
    pub path: String,
}

/// Parameters for removing a workspace from the configuration.
#[derive(Debug, Clone)]
pub struct RemoveWorkspaceParams {
    pub path: String,
}

/// One entry of the `workspace` list as found in the file: its `name` and
/// `path` when they are strings.
#[derive(Debug, Clone)]
pub struct WorkspaceEntry {
    pub name: Option<String>,
    pub path: Option<String>,
}

/// The workspaces described by the entries that carry both a name and a
/// path, in their order.
pub open spec fn workspaces_of_entries(entries: Seq<WorkspaceEntry>) -> Seq<Workspace>
    decreases entries.len(),
{
    if entries.len() == 0 {
        Seq::empty()
    } else {
        let rest = workspaces_of_entries(entries.drop_last());
        let e = entries.last();
        if e.name is Some && e.path is Some {
            rest.push(Workspace { name: e.name->0, path: e.path->0 })
        } else {
            rest
        }
    }
}

/// Reading the list keeps exactly the entries that carry both a name and a
/// path: each of them gives its workspace, and every workspace read comes
/// from such an entry.
pub proof fn lemma_entries_with_name_and_path_are_kept(entries: Seq<WorkspaceEntry>)
    ensures
        forall|i: int|
            0 <= i < entries.len() && (#[trigger] entries[i]).name is Some && entries[i].path is Some
                ==> workspaces_of_entries(entries).contains(
                Workspace { name: entries[i].name->0, path: entries[i].path->0 },
            ),
        forall|k: int|
            #![trigger workspaces_of_entries(entries)[k]]
            0 <= k < workspaces_of_entries(entries).len() ==> exists|i: int|
                0 <= i < entries.len() && (#[trigger] entries[i]).name == Some(
                    workspaces_of_entries(entries)[k].name,
                ) && entries[i].path == Some(workspaces_of_entries(entries)[k].path),
        workspaces_of_entries(entries).len() <= entries.len(),
    decreases entries.len(),
{
    if entries.len() > 0 {
        let rest = entries.drop_last();
        lemma_entries_with_name_and_path_are_kept(rest);
        let r = workspaces_of_entries(rest);
        let out = workspaces_of_entries(entries);
        let last = entries.len() - 1;
        let e = entries.last();
        assert(e == entries[last]);
        let w = Workspace { name: e.name->0, path: e.path->0 };
        assert forall|i: int|
            0 <= i < entries.len() && (#[trigger] entries[i]).name is Some && entries[i].path is Some
                implies out.contains(Workspace { name: entries[i].name->0, path: entries[i].path->0 }) by {
            let wi = Workspace { name: entries[i].name->0, path: entries[i].path->0 };
            if i < last {
                assert(rest[i] == entries[i]);
                assert(r.contains(wi));
                let j = choose|j: int| 0 <= j < r.len() && r[j] == wi;
                if e.name is Some && e.path is Some {
                    assert(r.push(w)[j] == wi);
                }
            } else {
                assert(r.push(w)[r.len() as int] == wi);
            }
        }
        assert forall|k: int| #![trigger out[k]] 0 <= k < out.len() implies exists|i: int|
            0 <= i < entries.len() && (#[trigger] entries[i]).name == Some(out[k].name) && entries[i].path
                == Some(out[k].path) by {
            if k < r.len() {
                if e.name is Some && e.path is Some {
                    assert(out[k] == r[k]);
                }
                let i = choose|i: int|
                    0 <= i < rest.len() && (#[trigger] rest[i]).name == Some(r[k].name) && rest[i].path
                        == Some(r[k].path);
                assert(entries[i] == rest[i]);
            } else {
                assert(out[k] == w);
                assert(entries[last].name == Some(out[k].name));
            }
        }
    }
}

/// Reads the workspace list out of its entries: those without a name or a
/// path are passed over.
pub fn workspaces_from_entries(entries: Vec<WorkspaceEntry>) -> (r: Vec<Workspace>)
    ensures
        r@ == workspaces_of_entries(entries@),
{
    let ghost all = entries@;
    let mut rest = entries;
    let mut r: Vec<Workspace> = Vec::new();
    let n = rest.len();
    let mut i: usize = 0;
    while i < n
        invariant
            n == all.len(),
            i <= n,
            rest@ == all.subrange(i as int, n as int),
            r@ == workspaces_of_entries(all.subrange(0, i as int)),
        decreases n - i,
    {
        let e = rest.remove(0);
        proof {
            assert(all.subrange(0, i + 1).drop_last() =~= all.subrange(0, i as int));
            assert(all.subrange(0, i + 1).last() == e);
            assert(rest@ =~= all.subrange(i + 1, n as int));
        }
        match (e.name, e.path) {
            (Some(name), Some(path)) => {
                r.push(Workspace { name, path });
            },
            _ => {},
        }
        i = i + 1;
    }
    proof {
        assert(all.subrange(0, n as int) =~= all);
    }
    r
}

} // verus!
