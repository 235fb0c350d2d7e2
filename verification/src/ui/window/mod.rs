//! The main window's decisions: how it wires the pages together and answers
//! each request, apart from its widgets.
//!
//! Each handler updates the window's state and returns, in order, what the
//! window asks of its pages, its workers and the disk.
use vstd::prelude::*;

use crate::reshade::app_state::AppState;
use crate::reshade::catalog::CatalogEntry;
use crate::reshade::config::{ShaderOverrides, ShaderRepo};
use crate::reshade::game::{game_view, status_view, DllOverride, ExeArch, Game, InstallStatus};
use crate::reshade::reshade::names;
use crate::ui::install_worker::InstallJob;
use crate::ui::shader_worker::ShaderJob;
use crate::ui::window::startup::{first_with_id, merge_steam_games, spec_merged_games, spec_new_steam};

pub mod panel_games;
pub mod panel_preferences;
pub mod panel_shaders;
pub mod startup;

verus! {

/// A request to the detail pane.
#[derive(Debug, Clone)]
pub enum DetailCommand {
    /// Show this game.
    SetGame(Game),
    /// Replace the repositories and the game's overrides.
    SetShaderData {
        /// Downloaded repositories.
        repos: Vec<ShaderRepo>,
        /// The game's overrides.
        overrides: ShaderOverrides,
    },
    /// Replace the cached version keys offered for install.
    SetInstalledVersions(Vec<String>),
    /// Show a progress message.
    SetProgress(String),
    /// Hide the progress message.
    ClearProgress,
    /// Mark the game shown as installed.
    MarkInstalled {
        /// Version key.
        version: String,
        /// DLL override.
        dll: DllOverride,
        /// Architecture.
        arch: ExeArch,
    },
    /// Mark the game shown as not installed.
    MarkUninstalled,
}

/// A request to the game list.
#[derive(Debug, Clone)]
pub enum ListCommand {
    /// Show a game's new status.
    SetGameStatus {
        /// Stable game ID.
        id: String,
        /// `ReShade` is installed.
        installed: bool,
        /// The installed version, when known.
        version: Option<String>,
        /// The latest known version.
        latest_version: Option<String>,
    },
    /// Remove a game's card.
    RemoveGame(String),
    /// Add a game's card.
    AddGame(Game),
}

/// A request to the Preferences page.
#[derive(Debug, Clone)]
pub enum PrefsCommand {
    /// The latest version is known.
    SetLatestVersion(String),
    /// A download finished.
    VersionDownloadComplete(String),
    /// A version operation failed.
    VersionOpError(String),
    /// A removal finished.
    VersionRemoveComplete(String),
}

/// A request to the shader catalog.
#[derive(Debug, Clone)]
pub enum CatalogCommand {
    /// Progress of the sync in flight.
    SyncProgress(String),
    /// The sync in flight finished.
    SyncComplete,
    /// The sync in flight failed.
    SyncError(String),
    /// A custom repository was added.
    AddCustomRepo(ShaderRepo),
    /// A custom repository was removed.
    RemoveCustomRepo(ShaderRepo),
}

/// A short notice shown over the window.
#[derive(Debug, Clone)]
pub enum Toast {
    /// The repository is already in the catalog.
    RepoInCatalog,
    /// The repository is already configured.
    RepoDuplicate,
    /// A plain message.
    Message(String),
}

/// What the window asks for, in order.
#[derive(Debug, Clone)]
pub enum WindowAction {
    /// A request to the detail pane.
    Detail(DetailCommand),
    /// Push the detail pane onto the navigation view.
    ShowDetail,
    /// A request to the game list.
    List(ListCommand),
    /// A job for the install worker.
    Install(InstallJob),
    /// A job for the shader worker.
    Shaders(ShaderJob),
    /// A request to the Preferences page.
    Prefs(PrefsCommand),
    /// A request to the shader catalog.
    Catalog(CatalogCommand),
    /// Open the add-game dialog.
    OpenAddGameDialog,
    /// Give the add-game dialog the library's directories.
    UpdateExistingPaths(Vec<String>),
    /// Give the add-repository dialog the configured URLs, and open it.
    OpenAddRepoDialog(Vec<String>),
    /// Save the state; a failure shows a notice.
    Save,
    /// Save the state; a failure is only logged.
    SaveLogged,
    /// Show a notice.
    Toast(Toast),
    /// Delete this repository directory, if it exists.
    RemoveRepoDir(String),
    /// Rebuild a game's shader tree without the disabled repositories.
    RebuildGameShaders {
        /// Stable game ID.
        game_id: String,
        /// Repositories disabled for the game.
        disabled_repos: Vec<String>,
    },
    /// Drop a version from the installed list of the update cache.
    ForgetVersion(String),
    /// Delete this cached version directory, if it exists, and report how it went.
    RemoveVersionDir(String),
}

/// The main window, apart from its widgets.
#[derive(Debug)]
pub struct WindowModel {
    /// The persisted state (configuration and saved games).
    pub app_state: AppState,
    /// All known games: the saved ones and those discovered in Steam.
    pub games: Vec<Game>,
    /// The community catalog.
    pub known: Vec<CatalogEntry>,
    /// The game shown in the detail pane, if any.
    pub current_game_id: Option<String>,
    /// Locally cached version keys.
    pub installed_versions: Vec<String>,
    /// The latest known version.
    pub latest_version: Option<String>,
}

/// `after` is `before` with the game at `i` given the status `s`.
pub open spec fn status_set_at(before: Seq<Game>, after: Seq<Game>, i: int, s: Option<(DllOverride, ExeArch, Option<Seq<char>>)>) -> bool {
    &&& after.len() == before.len()
    &&& forall|j: int| 0 <= j < before.len() && j != i ==> after[j] == before[j]
    &&& status_view(after[i].status) == s
    &&& after[i].id == before[i].id && after[i].name == before[i].name && after[i].path == before[i].path
    &&& after[i].source == before[i].source && after[i].shader_overrides == before[i].shader_overrides
    &&& after[i].preferred_arch == before[i].preferred_arch
}

/// Gives the first game with the identifier `id` the status `status`.
/// Returns whether there was one.
pub fn set_status_of(games: &mut Vec<Game>, id: &str, status: InstallStatus) -> (r: bool)
    ensures
        r == crate::ui::game_list::game_ids(old(games)@).contains(id@),
        !r ==> final(games)@ == old(games)@,
        forall|i: int| first_with_id(old(games)@, id@, i) ==> status_set_at(old(games)@, final(games)@, i, status_view(status)),
{
    match crate::ui::window::startup::find_game(games, id) {
        None => {
            assert forall|i: int| !first_with_id(games@, id@, i) by {
                if first_with_id(games@, id@, i) {
                    assert(crate::ui::game_list::game_ids(games@)[i] == id@);
                }
            }
            false
        },
        Some(i) => {
            let ghost before = games@;
            let mut g = games.remove(i);
            g.status = status;
            let ghost gg = g;
            games.insert(i, g);
            assert(games@[i as int] == gg);
            assert(status_set_at(before, games@, i as int, status_view(gg.status)));
            assert forall|j: int| 0 <= j < before.len() && j != i implies games@[j] == before[j] by {
                if j < i {
                } else {
                }
            }
            assert(crate::ui::game_list::game_ids(before)[i as int] == id@);
            proof {
                assert forall|k: int| first_with_id(before, id@, k) implies k == i by {
                    if k < i {
                    } else if k > i {
                        assert(before[i as int].id@ == id@);
                    }
                }
            }
            true
        },
    }
}

impl WindowModel {
    /// Builds the window's state: the saved games `games` plus each Steam game
    /// not known yet, the cached version keys, and the catalog. Returns the
    /// identifier and directory of each Steam game added, whose install status
    /// is detected after the window shows.
    pub fn init(
        app_state: AppState,
        games: Vec<Game>,
        steam_games: Vec<Game>,
        installed_versions: Vec<String>,
        known: Vec<CatalogEntry>,
    ) -> (r: (Self, Vec<(String, String)>))
        ensures
            r.0.app_state == app_state,
            r.0.games@ == spec_merged_games(games@, steam_games@),
            r.1@.map_values(|p: (String, String)| (p.0@, p.1@)) == spec_new_steam(games@, steam_games@),
            r.0.installed_versions == installed_versions,
            r.0.known == known,
            r.0.current_game_id is None,
            r.0.latest_version is None,
    {
        let mut games = games;
        let added = merge_steam_games(&mut games, steam_games);
        let model = WindowModel { app_state, games, known, current_game_id: None, installed_versions, latest_version: None };
        (model, added)
    }

    /// Everything but the game lists is as in `old`.
    pub open spec fn same_but_games(&self, old: &Self) -> bool {
        &&& self.app_state.config == old.app_state.config
        &&& self.app_state.reshade_version == old.app_state.reshade_version
        &&& self.app_state.data_dir == old.app_state.data_dir
        &&& self.known == old.known
        &&& self.current_game_id == old.current_game_id
        &&& self.installed_versions == old.installed_versions
        &&& self.latest_version == old.latest_version
    }

    /// The game lists are as in `old`.
    pub open spec fn same_games(&self, old: &Self) -> bool {
        &&& self.games@ == old.games@
        &&& self.app_state.games@ == old.app_state.games@
    }
}

} // verus!
