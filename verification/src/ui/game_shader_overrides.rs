//! The state behind the per-game shader repository override panel.
use vstd::prelude::*;

use crate::reshade::config::{GlobalConfig, ShaderOverrides};

verus! {

/// What the per-game override panel shows: the configured repositories and the
/// game's overrides.
#[derive(Debug)]
pub struct GameShaderOverrides {
    /// The game's overrides.
    pub overrides: ShaderOverrides,
    /// The configuration whose repositories the panel lists.
    pub config: GlobalConfig,
}

/// Input messages of the override panel.
#[derive(Debug)]
pub enum Controls {
    /// Replace the displayed configuration and overrides.
    SetData(GlobalConfig, ShaderOverrides),
}

/// Output signals of the override panel.
#[derive(Debug)]
pub enum Signal {
    /// The user toggled a repository; carries the updated overrides.
    OverrideChanged(ShaderOverrides),
}

impl GameShaderOverrides {
    /// The panel for a configuration and a game's overrides.
    pub fn init(config: GlobalConfig, overrides: ShaderOverrides) -> (r: Self)
        ensures
            r.config == config,
            r.overrides == overrides,
    {
        GameShaderOverrides { overrides, config }
    }

    /// Handle one input message.
    pub fn update(&mut self, msg: Controls)
        ensures
            match msg {
                Controls::SetData(c, o) => final(self).config == c && final(self).overrides == o,
            },
    {
        match msg {
            Controls::SetData(config, overrides) => {
                self.config = config;
                self.overrides = overrides;
            },
        }
    }
}

} // verus!
