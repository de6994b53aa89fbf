//! Application-level configuration, workspaces and the models exchanged with
//! the user interface.
pub mod config;
pub mod workspace;
pub mod model_config;
pub mod model_common;
pub mod model_operations;
pub mod api_operations;
