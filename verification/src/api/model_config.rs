//! Configuration models exchanged with the user interface.
use vstd::prelude::*;

verus! {

/// A workspace: a named directory that holds an index database.
#[derive(Debug, Clone)]
pub struct Workspace {
    pub name: String,
    pub path: String,
}

/// What the application remembers from its last session.
#[derive(Debug, Clone)]
pub struct LastSettings {
    pub last_workspace: String,
    pub last_root: Option<i64>,
    pub last_db_path: Option<String>,
    pub window_width: i32,
    pub window_height: i32,
    pub window_x: i32,
    pub window_y: i32,
}

/// The application configuration: the known workspaces and the last settings.
#[derive(Debug, Clone)]
pub struct AppConfig {
    pub workspace: Vec<Workspace>,
    pub last_settings: LastSettings,
}

/// A window position on the screen.
#[derive(Debug, Clone, Copy, PartialEq, Eq, Structural)]
pub struct WindowPosition {
    pub x: i32,
    pub y: i32,
}

} // verus!
