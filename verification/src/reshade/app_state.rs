//! Shared application state: the games, the configuration and the data directory.
use vstd::prelude::*;

use crate::reshade::cache::VersionState;
use crate::reshade::config::GlobalConfig;
use crate::reshade::game::Game;
use crate::reshade::paths::{join, spec_join, CONFIG_FILE, GAMES_FILE};
use crate::text::opt_chars;

verus! {

/// Top-level application state shared across all UI components.
#[derive(Debug)]
pub struct AppState {
    /// All games known to the application (Steam-discovered + manually added).
    pub games: Vec<Game>,
    /// Currently installed `ReShade` version, if any.
    pub reshade_version: Option<String>,
    /// Global configuration.
    pub config: GlobalConfig,
    /// Root data directory (`$XDG_DATA_HOME/iris/`).
    pub data_dir: String,
}

/// The latest `ReShade` version recorded in the update state, or `None` when
/// the state could not be read (`version_state` is `None`) or records none.
pub fn load_reshade_version(version_state: Option<VersionState>) -> (r: Option<String>)
    ensures
        opt_chars(r) == match version_state {
            Some(st) => opt_chars(st.latest),
            None => None,
        },
{
    match version_state {
        Some(st) => st.latest,
        None => None,
    }
}

impl AppState {
    /// Initializes the state from what was read from disk under `data_dir`
    /// (defaults on first run): a configuration or game list that could not be
    /// read or parsed falls back to its default, and the `ReShade` version is
    /// the latest one recorded in the update state, when that could be read.
    pub fn load(
        data_dir: String,
        config: Option<GlobalConfig>,
        games: Option<Vec<Game>>,
        version_state: Option<VersionState>,
    ) -> (r: Self)
        ensures
            r.data_dir@ == data_dir@,
            opt_chars(r.reshade_version) == match version_state {
                Some(st) => opt_chars(st.latest),
                None => None,
            },
            match games {
                Some(g) => r.games@ == g@,
                None => r.games@.len() == 0,
            },
            match config {
                Some(c) => r.config == c,
                None => r.config.merge_shaders && r.config.update_interval_hours == 4
                    && r.config.shader_repos@.len() == crate::reshade::config::DEFAULT_REPO_COUNT
                    && forall|i: int| 0 <= i < r.config.shader_repos@.len()
                        ==> crate::reshade::config::repo_view(#[trigger] r.config.shader_repos@[i])
                            == crate::reshade::config::default_repo_entry(i),
            },
    {
        let config = match config {
            Some(c) => c,
            None => GlobalConfig::default(),
        };
        let games = match games {
            Some(g) => g,
            None => Vec::new(),
        };
        let reshade_version = load_reshade_version(version_state);
        AppState { games, reshade_version, config, data_dir }
    }

    /// Path of the configuration file: `data_dir/config.json`.
    pub fn config_path(&self) -> (r: String)
        ensures
            r@ == spec_join(self.data_dir@, CONFIG_FILE@),
    {
        join(self.data_dir.as_str(), CONFIG_FILE)
    }

    /// Path of the game list file: `data_dir/games.json`.
    pub fn games_path(&self) -> (r: String)
        ensures
            r@ == spec_join(self.data_dir@, GAMES_FILE@),
    {
        join(self.data_dir.as_str(), GAMES_FILE)
    }
}

} // verus!
