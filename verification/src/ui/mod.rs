//! The decisions of the user interface, apart from its widgets.
pub mod worker_types;
pub mod preferences;
pub mod shader_catalog;
pub mod game_detail;
pub mod add_shader_repo_dialog;
pub mod install_version_dialog;
pub mod pick_reshade_version_dialog;
pub mod add_game_dialog;
pub mod game_list;
pub mod shader_worker;
pub mod install_worker;
pub mod window;
pub mod about;
pub mod game_shader_overrides;
