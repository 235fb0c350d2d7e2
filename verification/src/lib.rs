//! Domain library for managing ReShade under Wine/Proton games.
pub mod reshade;
pub mod text;
pub mod ui;
