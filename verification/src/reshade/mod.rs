//! Domain logic: ReShade installation, game tracking, shader sync.
pub mod cache;
pub mod catalog;
pub mod config;
pub mod paths;
pub mod reshade;
pub mod game;
pub mod d3dcompiler;
pub mod shaders;
pub mod install;
pub mod steam;
pub mod app_state;
pub mod services;
