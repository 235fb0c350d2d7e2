//! The detail pane of one game: what it shows and what its buttons ask for.
use vstd::prelude::*;

use crate::reshade::config::{contains_name, ShaderOverrides, ShaderRepo};
use crate::reshade::game::{
    spec_arch_label, spec_symlink_name, status_view, DllOverride, ExeArch, Game, InstallStatus,
};
use crate::reshade::reshade::names;
use crate::text::push_str;

verus! {

/// What the detail pane tells the window.
#[derive(Debug, Clone)]
pub enum DetailSignal {
    /// Install `ReShade` into the game.
    Install {
        /// Stable game ID.
        game_id: String,
        /// DLL override chosen.
        dll: DllOverride,
        /// Architecture detected or chosen.
        arch: ExeArch,
        /// The cached version key to install, e.g. `"v6.3.0"`.
        version: String,
    },
    /// Remove `ReShade` from the game.
    Uninstall {
        /// Stable game ID.
        game_id: String,
        /// Current DLL override.
        dll: DllOverride,
    },
    /// A per-game shader repository was switched.
    ShaderToggled {
        /// Stable game ID.
        game_id: String,
        /// Repository local name.
        repo_name: String,
        /// New enabled state.
        enabled: bool,
    },
}

/// One row of the shader list: a repository and whether it is on for the game.
#[derive(Debug, Clone)]
pub struct ShaderRow {
    /// Repository local name.
    pub name: String,
    /// The repository is enabled for the game.
    pub active: bool,
}

/// The detail pane, apart from its widgets.
#[derive(Debug)]
pub struct GameDetailModel {
    /// The game shown, if any.
    pub game: Option<Game>,
    /// The progress banner's text, when shown.
    pub progress_message: Option<String>,
    /// The downloaded shader repositories.
    pub shader_repos: Vec<ShaderRepo>,
    /// Locally cached `ReShade` version keys.
    pub installed_versions: Vec<String>,
}

/// The line under the game's title: empty with no game; the given label when
/// not installed; else `arch · dll · ReShade version`, with `?` for an unknown version.
pub open spec fn spec_metadata_subtitle(game: Option<Game>, not_installed: Seq<char>) -> Seq<char> {
    match game {
        None => Seq::empty(),
        Some(g) => match status_view(g.status) {
            None => not_installed,
            Some((dll, arch, version)) => spec_arch_label(arch) + " \u{00B7} "@ + spec_symlink_name(dll)
                + " \u{00B7} ReShade "@ + match version {
                Some(v) => v,
                None => "?"@,
            },
        },
    }
}

/// The shader rows for a game: one per repository, on unless the game disables it.
pub open spec fn spec_shader_rows(game: Option<Game>, repos: Seq<ShaderRepo>) -> Seq<(Seq<char>, bool)> {
    match game {
        None => Seq::empty(),
        Some(g) => repos.map_values(
            |r: ShaderRepo| (r.local_name@, !names(g.shader_overrides.disabled_repos@).contains(r.local_name@)),
        ),
    }
}

/// The plain values of shader rows.
pub open spec fn row_views(rows: Seq<ShaderRow>) -> Seq<(Seq<char>, bool)> {
    rows.map_values(|r: ShaderRow| (r.name@, r.active))
}

/// The DLL and architecture an install uses: those in place when installed,
/// else `dxgi.dll` and the preferred architecture (64-bit when unset).
pub open spec fn spec_install_choice(g: Game) -> (DllOverride, ExeArch) {
    match g.status {
        InstallStatus::Installed { dll, arch, .. } => (dll, arch),
        InstallStatus::NotInstalled => (
            DllOverride::Dxgi,
            match g.preferred_arch {
                Some(a) => a,
                None => ExeArch::X86_64,
            },
        ),
    }
}

impl GameDetailModel {
    /// An empty pane.
    pub fn new() -> (r: Self)
        ensures
            r.game is None,
            r.progress_message is None,
            r.shader_repos@.len() == 0,
            r.installed_versions@.len() == 0,
    {
        GameDetailModel { game: None, progress_message: None, shader_repos: Vec::new(), installed_versions: Vec::new() }
    }

    /// The line under the game's title; `not_installed` is the localized
    /// "not installed" label.
    pub fn metadata_subtitle(&self, not_installed: &str) -> (r: String)
        ensures
            r@ == spec_metadata_subtitle(self.game, not_installed@),
    {
        match &self.game {
            None => String::new(),
            Some(g) => match &g.status {
                InstallStatus::NotInstalled => not_installed.to_owned(),
                InstallStatus::Installed { dll, arch, version } => {
                    let mut r = arch.label().to_owned();
                    push_str(&mut r, " \u{00B7} ");
                    push_str(&mut r, dll.symlink_name());
                    push_str(&mut r, " \u{00B7} ReShade ");
                    match version {
                        Some(v) => push_str(&mut r, v.as_str()),
                        None => push_str(&mut r, "?"),
                    }
                    r
                },
            },
        }
    }

    /// The rows of the shader list, in repository order; none without a game.
    pub fn shader_rows(&self) -> (r: Vec<ShaderRow>)
        ensures
            row_views(r@) == spec_shader_rows(self.game, self.shader_repos@),
    {
        let mut rows: Vec<ShaderRow> = Vec::new();
        match &self.game {
            None => {
                assert(row_views(rows@) =~= spec_shader_rows(self.game, self.shader_repos@));
                rows
            },
            Some(g) => {
                let mut i: usize = 0;
                while i < self.shader_repos.len()
                    invariant
                        self.game == Some(*g),
                        i <= self.shader_repos@.len(),
                        rows@.len() == i,
                        forall|j: int| 0 <= j < i ==> (#[trigger] rows@[j]).name@ == self.shader_repos@[j].local_name@
                            && rows@[j].active == !names(g.shader_overrides.disabled_repos@).contains(self.shader_repos@[j].local_name@),
                    decreases self.shader_repos.len() - i,
                {
                    let name = &self.shader_repos[i].local_name;
                    let active = !contains_name(&g.shader_overrides.disabled_repos, name.as_str());
                    rows.push(ShaderRow { name: name.clone(), active });
                    i = i + 1;
                }
                assert(row_views(rows@) =~= spec_shader_rows(self.game, self.shader_repos@));
                rows
            },
        }
    }

    /// Shows `game`; the progress banner hides. Returns the new shader rows.
    pub fn set_game(&mut self, game: Game) -> (rows: Vec<ShaderRow>)
        ensures
            final(self).game == Some(game),
            final(self).progress_message is None,
            final(self).shader_repos@ == old(self).shader_repos@,
            final(self).installed_versions@ == old(self).installed_versions@,
            row_views(rows@) == spec_shader_rows(Some(game), old(self).shader_repos@),
    {
        self.game = Some(game);
        self.progress_message = None;
        self.shader_rows()
    }

    /// Clears the pane.
    pub fn clear(&mut self)
        ensures
            final(self).game is None,
            final(self).progress_message == old(self).progress_message,
            final(self).shader_repos@ == old(self).shader_repos@,
            final(self).installed_versions@ == old(self).installed_versions@,
    {
        self.game = None;
    }

    /// Shows `message` in the progress banner.
    pub fn set_progress(&mut self, message: String)
        ensures
            final(self).progress_message == Some(message),
            final(self).game == old(self).game,
            final(self).shader_repos@ == old(self).shader_repos@,
            final(self).installed_versions@ == old(self).installed_versions@,
    {
        self.progress_message = Some(message);
    }

    /// Hides the progress banner.
    pub fn clear_progress(&mut self)
        ensures
            final(self).progress_message is None,
            final(self).game == old(self).game,
            final(self).shader_repos@ == old(self).shader_repos@,
            final(self).installed_versions@ == old(self).installed_versions@,
    {
        self.progress_message = None;
    }

    /// Marks the game shown as installed with these settings.
    pub fn mark_installed(&mut self, version: String, dll: DllOverride, arch: ExeArch)
        ensures
            match old(self).game {
                None => final(self).game is None,
                Some(g) => final(self).game matches Some(h) && status_view(h.status) == Some((dll, arch, Some(version@)))
                    && h.id == g.id && h.name == g.name && h.path == g.path && h.source == g.source
                    && h.shader_overrides == g.shader_overrides && h.preferred_arch == g.preferred_arch,
            },
            final(self).progress_message == old(self).progress_message,
            final(self).shader_repos@ == old(self).shader_repos@,
            final(self).installed_versions@ == old(self).installed_versions@,
    {
        match &mut self.game {
            Some(g) => {
                g.status = InstallStatus::Installed { dll, arch, version: Some(version) };
            },
            None => {},
        }
    }

    /// Marks the game shown as not installed.
    pub fn mark_uninstalled(&mut self)
        ensures
            match old(self).game {
                None => final(self).game is None,
                Some(g) => final(self).game matches Some(h) && h.status is NotInstalled
                    && h.id == g.id && h.name == g.name && h.path == g.path && h.source == g.source
                    && h.shader_overrides == g.shader_overrides && h.preferred_arch == g.preferred_arch,
            },
            final(self).progress_message == old(self).progress_message,
            final(self).shader_repos@ == old(self).shader_repos@,
            final(self).installed_versions@ == old(self).installed_versions@,
    {
        match &mut self.game {
            Some(g) => {
                g.status = InstallStatus::NotInstalled;
            },
            None => {},
        }
    }

    /// Replaces the repositories and the game's overrides. Returns the new shader rows.
    pub fn set_shader_data(&mut self, repos: Vec<ShaderRepo>, overrides: ShaderOverrides) -> (rows: Vec<ShaderRow>)
        ensures
            final(self).shader_repos@ == repos@,
            match old(self).game {
                None => final(self).game is None,
                Some(g) => final(self).game matches Some(h) && h.shader_overrides == overrides
                    && h.id == g.id && h.name == g.name && h.path == g.path && h.source == g.source
                    && h.status == g.status && h.preferred_arch == g.preferred_arch,
            },
            final(self).progress_message == old(self).progress_message,
            final(self).installed_versions@ == old(self).installed_versions@,
            row_views(rows@) == spec_shader_rows(final(self).game, repos@),
    {
        self.shader_repos = repos;
        match &mut self.game {
            Some(g) => {
                g.shader_overrides = overrides;
            },
            None => {},
        }
        self.shader_rows()
    }

    /// Replaces the cached version keys offered for install.
    pub fn set_installed_versions(&mut self, versions: Vec<String>)
        ensures
            final(self).installed_versions@ == versions@,
            final(self).game == old(self).game,
            final(self).progress_message == old(self).progress_message,
            final(self).shader_repos@ == old(self).shader_repos@,
    {
        self.installed_versions = versions;
    }

    /// The Install button: the version keys the picker offers.
    pub fn install_requested(&self) -> (r: Vec<String>)
        ensures
            names(r@) == names(self.installed_versions@),
    {
        crate::reshade::config::clone_strings(&self.installed_versions)
    }

    /// The picker confirmed `version`: install it with the DLL and architecture
    /// in place, or `dxgi.dll` and the preferred architecture for a new install.
    pub fn version_chosen(&self, version: String) -> (r: Option<DetailSignal>)
        ensures
            match self.game {
                None => r is None,
                Some(g) => r matches Some(DetailSignal::Install { game_id, dll, arch, version: v })
                    && game_id@ == g.id@ && (dll, arch) == spec_install_choice(g) && v@ == version@,
            },
    {
        match &self.game {
            None => None,
            Some(g) => {
                let (dll, arch) = match &g.status {
                    InstallStatus::Installed { dll, arch, .. } => (*dll, *arch),
                    InstallStatus::NotInstalled => (
                        DllOverride::Dxgi,
                        match g.preferred_arch {
                            Some(a) => a,
                            None => ExeArch::X86_64,
                        },
                    ),
                };
                Some(DetailSignal::Install { game_id: g.id.clone(), dll, arch, version })
            },
        }
    }

    /// The Uninstall button: asks to remove `ReShade` only from an installed game.
    pub fn uninstall_requested(&self) -> (r: Option<DetailSignal>)
        ensures
            match self.game {
                Some(g) => match g.status {
                    InstallStatus::Installed { dll, .. } => r matches Some(DetailSignal::Uninstall { game_id, dll: d })
                        && game_id@ == g.id@ && d == dll,
                    InstallStatus::NotInstalled => r is None,
                },
                None => r is None,
            },
    {
        match &self.game {
            Some(g) => match &g.status {
                InstallStatus::Installed { dll, .. } => Some(DetailSignal::Uninstall { game_id: g.id.clone(), dll: *dll }),
                InstallStatus::NotInstalled => None,
            },
            None => None,
        }
    }

    /// A shader switch changed: reported for the game shown.
    pub fn shader_toggled(&self, repo_name: String, enabled: bool) -> (r: Option<DetailSignal>)
        ensures
            match self.game {
                Some(g) => r matches Some(DetailSignal::ShaderToggled { game_id, repo_name: n, enabled: e })
                    && game_id@ == g.id@ && n@ == repo_name@ && e == enabled,
                None => r is None,
            },
    {
        match &self.game {
            Some(g) => Some(DetailSignal::ShaderToggled { game_id: g.id.clone(), repo_name, enabled }),
            None => None,
        }
    }

    /// The folder button: the directory to open.
    pub fn open_folder_requested(&self) -> (r: Option<String>)
        ensures
            match self.game {
                Some(g) => r matches Some(p) && p@ == g.path@,
                None => r is None,
            },
    {
        match &self.game {
            Some(g) => Some(g.path.clone()),
            None => None,
        }
    }

    /// The Install button shows: no game, or one without `ReShade`.
    pub fn install_visible(&self) -> (r: bool)
        ensures
            r == match self.game {
                Some(g) => g.status is NotInstalled,
                None => true,
            },
    {
        match &self.game {
            Some(g) => !g.status.is_installed(),
            None => true,
        }
    }

    /// The Install button is enabled: a version is cached and the button shows.
    pub fn install_sensitive(&self) -> (r: bool)
        ensures
            r == (self.installed_versions@.len() > 0 && match self.game {
                Some(g) => g.status is NotInstalled,
                None => true,
            }),
    {
        self.installed_versions.len() > 0 && self.install_visible()
    }

    /// The Uninstall button shows: the game has `ReShade`.
    pub fn uninstall_visible(&self) -> (r: bool)
        ensures
            r == match self.game {
                Some(g) => g.status is Installed,
                None => false,
            },
    {
        match &self.game {
            Some(g) => g.status.is_installed(),
            None => false,
        }
    }

    /// The "no versions cached" banner shows: a game is shown and no version is cached.
    pub fn no_versions_banner(&self) -> (r: bool)
        ensures
            r == (self.game is Some && self.installed_versions@.len() == 0),
    {
        self.game.is_some() && self.installed_versions.len() == 0
    }
}


/// Law: a game that is not installed is installed through `dxgi.dll`, for its
/// preferred architecture, and for 64-bit when it has none; an installed game
/// keeps the DLL and architecture it was installed with.
pub proof fn lemma_install_choice_defaults(g: Game)
    ensures
        g.status is NotInstalled && g.preferred_arch is None ==> spec_install_choice(g) == (DllOverride::Dxgi, ExeArch::X86_64),
        g.status is NotInstalled ==> spec_install_choice(g).0 == DllOverride::Dxgi,
        g.status is NotInstalled && g.preferred_arch is Some ==> spec_install_choice(g).1 == g.preferred_arch->0,
        g.status matches InstallStatus::Installed { dll, arch, .. } ==> spec_install_choice(g) == (dll, arch),
{
}

} // verus!
