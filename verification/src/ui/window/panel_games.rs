//! The main window's answers to the requests of the Games page.
use vstd::prelude::*;

use crate::reshade::config::{clone_strings, repo_views, spec_toggled};
use crate::reshade::game::{
    clone_game, game_view, spec_make_id, status_view, DllOverride, ExeArch, Game, GameSource, InstallStatus,
};
use crate::reshade::reshade::names;
use crate::text::{opt_chars, push_str};
use crate::ui::game_list::{game_ids, other_game, remove_game_by_id};
use crate::ui::install_worker::InstallJob;
use crate::ui::window::startup::{downloaded_repos, find_game, first_with_id, spec_downloaded_repos};
use crate::ui::window::{
    set_status_of, status_set_at, DetailCommand, ListCommand, WindowAction, WindowModel,
};
use crate::ui::worker_types::{spec_progress_message, ProgressEvent};

verus! {

/// `after` is `before` with the game at `i` having `name` switched on
/// (`enabled`) or off.
pub open spec fn toggled_at(before: Seq<Game>, after: Seq<Game>, i: int, name: Seq<char>, enabled: bool) -> bool {
    &&& after.len() == before.len()
    &&& forall|j: int| 0 <= j < before.len() && j != i ==> after[j] == before[j]
    &&& names(after[i].shader_overrides.disabled_repos@) == spec_toggled(
        names(before[i].shader_overrides.disabled_repos@),
        name,
        enabled,
    )
    &&& after[i].id == before[i].id && after[i].name == before[i].name && after[i].path == before[i].path
    &&& after[i].source == before[i].source && after[i].status == before[i].status
    &&& after[i].preferred_arch == before[i].preferred_arch
}

/// Switches `repo_name` on or off for the first game with the identifier `id`.
/// Returns the index of that game, if there is one.
pub fn toggle_repo_of(games: &mut Vec<Game>, id: &str, repo_name: &str, enabled: bool) -> (r: Option<usize>)
    ensures
        (r is Some) == game_ids(old(games)@).contains(id@),
        r is None ==> final(games)@ == old(games)@,
        r matches Some(i) ==> first_with_id(old(games)@, id@, i as int)
            && toggled_at(old(games)@, final(games)@, i as int, repo_name@, enabled),
        forall|i: int| #[trigger] first_with_id(old(games)@, id@, i) ==> r == Some(i as usize)
            && toggled_at(old(games)@, final(games)@, i, repo_name@, enabled),
{
    match find_game(games, id) {
        None => None,
        Some(i) => {
            let ghost before = games@;
            let mut g = games.remove(i);
            g.shader_overrides.set_repo_enabled(repo_name, enabled);
            let ghost gg = g;
            games.insert(i, g);
            assert(games@[i as int] == gg);
            assert forall|j: int| 0 <= j < before.len() && j != i implies games@[j] == before[j] by {
                if j < i {
                } else {
                }
            }
            Some(i)
        },
    }
}

/// The paths of the games.
pub open spec fn game_paths(s: Seq<Game>) -> Seq<Seq<char>> {
    s.map_values(|g: Game| g.path@)
}

/// The plain value of a game added by hand with this name, directory and architecture.
pub open spec fn spec_added_game(name: Seq<char>, path: Seq<char>, arch: ExeArch) -> (
    Seq<char>,
    Seq<char>,
    Seq<char>,
    GameSource,
    Option<(DllOverride, ExeArch, Option<Seq<char>>)>,
    Seq<Seq<char>>,
    Option<ExeArch>,
) {
    (spec_make_id(path), name, path, GameSource::Manual, None, Seq::empty(), Some(arch))
}

fn one(a: WindowAction) -> (r: Vec<WindowAction>)
    ensures
        r@ == seq![a],
{
    let mut v: Vec<WindowAction> = Vec::new();
    v.push(a);
    v
}

impl WindowModel {
    /// A game was selected: the detail pane shows it, with the downloaded
    /// repositories (`on_disk` names the directories under `ReShade_shaders/`),
    /// its overrides and the cached versions, and is pushed. An unknown
    /// identifier changes nothing.
    pub fn game_selected(&mut self, id: String, on_disk: &Vec<String>) -> (acts: Vec<WindowAction>)
        ensures
            final(self).same_games(old(self)),
            !game_ids(old(self).games@).contains(id@) ==> acts@.len() == 0 && final(self).same_but_games(old(self)),
            forall|i: int| #[trigger] first_with_id(old(self).games@, id@, i) ==> ({
                &&& final(self).current_game_id == Some(id)
                &&& final(self).app_state.config == old(self).app_state.config
                &&& final(self).installed_versions == old(self).installed_versions
                &&& final(self).latest_version == old(self).latest_version
                &&& final(self).known == old(self).known
                &&& acts@.len() == 4
                &&& acts@[0] matches WindowAction::Detail(DetailCommand::SetGame(g)) && game_view(g) == game_view(old(self).games@[i])
                &&& acts@[1] matches WindowAction::Detail(DetailCommand::SetShaderData { repos, overrides })
                    && repo_views(repos@) == spec_downloaded_repos(old(self).known@, old(self).app_state.config.shader_repos@, names(on_disk@))
                    && names(overrides.disabled_repos@) == names(old(self).games@[i].shader_overrides.disabled_repos@)
                &&& acts@[2] matches WindowAction::Detail(DetailCommand::SetInstalledVersions(v)) && names(v@) == names(old(self).installed_versions@)
                &&& acts@[3] is ShowDetail
            }),
    {
        let mut acts: Vec<WindowAction> = Vec::new();
        match find_game(&self.games, id.as_str()) {
            None => acts,
            Some(i) => {
                let game = clone_game(&self.games[i]);
                let overrides = crate::reshade::config::ShaderOverrides {
                    disabled_repos: clone_strings(&self.games[i].shader_overrides.disabled_repos),
                };
                let repos = downloaded_repos(&self.known, &self.app_state.config.shader_repos, on_disk);
                acts.push(WindowAction::Detail(DetailCommand::SetGame(game)));
                acts.push(WindowAction::Detail(DetailCommand::SetShaderData { repos, overrides }));
                acts.push(WindowAction::Detail(DetailCommand::SetInstalledVersions(clone_strings(&self.installed_versions))));
                acts.push(WindowAction::ShowDetail);
                proof {
                    assert forall|k: int| first_with_id(old(self).games@, id@, k) implies k == i by {
                        if k < i {
                        } else if k > i {
                            assert(old(self).games@[i as int].id@ == id@);
                        }
                    }
                }
                self.current_game_id = Some(id);
                acts
            },
        }
    }

    /// A game was removed: it leaves both lists, the state is saved and its
    /// card goes.
    pub fn game_remove(&mut self, id: String) -> (acts: Vec<WindowAction>)
        ensures
            final(self).same_but_games(old(self)),
            final(self).games@ == old(self).games@.filter(other_game(id@)),
            final(self).app_state.games@ == old(self).app_state.games@.filter(other_game(id@)),
            acts@.len() == 2,
            acts@[0] is Save,
            acts@[1] matches WindowAction::List(ListCommand::RemoveGame(x)) && x@ == id@,
    {
        remove_game_by_id(&mut self.games, id.as_str());
        remove_game_by_id(&mut self.app_state.games, id.as_str());
        let mut acts: Vec<WindowAction> = Vec::new();
        acts.push(WindowAction::Save);
        acts.push(WindowAction::List(ListCommand::RemoveGame(id)));
        acts
    }

    /// The detail pane asked to install `version` into a game: the install
    /// worker gets the job, with the game's directory and disabled repositories.
    pub fn install(&self, game_id: &str, dll: DllOverride, arch: ExeArch, version: String, data_dir: String) -> (acts: Vec<WindowAction>)
        ensures
            !game_ids(self.games@).contains(game_id@) ==> acts@.len() == 0,
            forall|i: int| #[trigger] first_with_id(self.games@, game_id@, i) ==> acts@.len() == 1
                && (acts@[0] matches WindowAction::Install(InstallJob::Install { data_dir: d, game_dir, game_id: gid, disabled_repos, dll: l, arch: a, version: v })
                && d@ == data_dir@ && game_dir@ == self.games@[i].path@ && gid@ == self.games@[i].id@
                && names(disabled_repos@) == names(self.games@[i].shader_overrides.disabled_repos@)
                && l == dll && a == arch && v@ == version@),
    {
        match find_game(&self.games, game_id) {
            None => Vec::new(),
            Some(i) => {
                let g = &self.games[i];
                let job = InstallJob::Install {
                    data_dir,
                    game_dir: g.path.clone(),
                    game_id: g.id.clone(),
                    disabled_repos: clone_strings(&g.shader_overrides.disabled_repos),
                    dll,
                    arch,
                    version,
                };
                proof {
                    assert forall|k: int| first_with_id(self.games@, game_id@, k) implies k == i by {
                        if k < i {
                        } else if k > i {
                            assert(self.games@[i as int].id@ == game_id@);
                        }
                    }
                }
                one(WindowAction::Install(job))
            },
        }
    }

    /// The detail pane asked to uninstall: the install worker gets the job.
    pub fn uninstall(&self, game_id: &str, dll: DllOverride, data_dir: String) -> (acts: Vec<WindowAction>)
        ensures
            !game_ids(self.games@).contains(game_id@) ==> acts@.len() == 0,
            forall|i: int| #[trigger] first_with_id(self.games@, game_id@, i) ==> acts@.len() == 1
                && (acts@[0] matches WindowAction::Install(InstallJob::Uninstall { data_dir: d, game_dir, game_id: gid, dll: l })
                && d@ == data_dir@ && game_dir@ == self.games@[i].path@ && gid@ == self.games@[i].id@ && l == dll),
    {
        match find_game(&self.games, game_id) {
            None => Vec::new(),
            Some(i) => {
                let g = &self.games[i];
                let job = InstallJob::Uninstall { data_dir, game_dir: g.path.clone(), game_id: g.id.clone(), dll };
                proof {
                    assert forall|k: int| first_with_id(self.games@, game_id@, k) implies k == i by {
                        if k < i {
                        } else if k > i {
                            assert(self.games@[i as int].id@ == game_id@);
                        }
                    }
                }
                one(WindowAction::Install(job))
            },
        }
    }

    /// Install progress: shown in the detail pane.
    pub fn install_progress(&self, event: &ProgressEvent) -> (acts: Vec<WindowAction>)
        ensures
            acts@.len() == 1,
            acts@[0] matches WindowAction::Detail(DetailCommand::SetProgress(m)) && m@ == spec_progress_message(*event),
    {
        one(WindowAction::Detail(DetailCommand::SetProgress(event.message())))
    }

    /// An install finished: the detail pane clears its progress and marks the
    /// game installed; the game shown is marked installed in both lists, the
    /// state is saved and its card updated.
    pub fn install_complete(&mut self, version: String, dll: DllOverride, arch: ExeArch) -> (acts: Vec<WindowAction>)
        ensures
            final(self).same_but_games(old(self)),
            acts@.len() >= 2,
            acts@[0] matches WindowAction::Detail(DetailCommand::ClearProgress),
            acts@[1] matches WindowAction::Detail(DetailCommand::MarkInstalled { version: v, dll: l, arch: a })
                && v@ == version@ && l == dll && a == arch,
            old(self).current_game_id is None ==> acts@.len() == 2 && final(self).same_games(old(self)),
            old(self).current_game_id matches Some(id) ==> ({
                let s = Some((dll, arch, Some(version@)));
                &&& !game_ids(old(self).games@).contains(id@) ==> final(self).games@ == old(self).games@
                &&& forall|i: int| #[trigger] first_with_id(old(self).games@, id@, i) ==> status_set_at(old(self).games@, final(self).games@, i, s)
                &&& !game_ids(old(self).app_state.games@).contains(id@) ==> final(self).app_state.games@ == old(self).app_state.games@
                &&& forall|i: int| #[trigger] first_with_id(old(self).app_state.games@, id@, i) ==> status_set_at(old(self).app_state.games@, final(self).app_state.games@, i, s)
                &&& acts@.len() == 4
                &&& acts@[2] is Save
                &&& acts@[3] matches WindowAction::List(ListCommand::SetGameStatus { id: x, installed, version: v, latest_version })
                    && x@ == id@ && installed && opt_chars(v) == Some(version@) && opt_chars(latest_version) == opt_chars(old(self).latest_version)
            }),
    {
        let mut acts: Vec<WindowAction> = Vec::new();
        acts.push(WindowAction::Detail(DetailCommand::ClearProgress));
        acts.push(WindowAction::Detail(DetailCommand::MarkInstalled { version: version.clone(), dll, arch }));
        match &self.current_game_id {
            None => acts,
            Some(id) => {
                let id = id.clone();
                let s1 = InstallStatus::Installed { dll, arch, version: Some(version.clone()) };
                let s2 = InstallStatus::Installed { dll, arch, version: Some(version.clone()) };
                set_status_of(&mut self.games, id.as_str(), s1);
                set_status_of(&mut self.app_state.games, id.as_str(), s2);
                acts.push(WindowAction::Save);
                acts.push(WindowAction::List(ListCommand::SetGameStatus {
                    id,
                    installed: true,
                    version: Some(version),
                    latest_version: crate::text::clone_opt(&self.latest_version),
                }));
                acts
            },
        }
    }

    /// An uninstall finished: as for an install, with the game marked not installed.
    pub fn uninstall_complete(&mut self) -> (acts: Vec<WindowAction>)
        ensures
            final(self).same_but_games(old(self)),
            acts@.len() >= 2,
            acts@[0] matches WindowAction::Detail(DetailCommand::ClearProgress),
            acts@[1] matches WindowAction::Detail(DetailCommand::MarkUninstalled),
            old(self).current_game_id is None ==> acts@.len() == 2 && final(self).same_games(old(self)),
            old(self).current_game_id matches Some(id) ==> ({
                &&& !game_ids(old(self).games@).contains(id@) ==> final(self).games@ == old(self).games@
                &&& forall|i: int| #[trigger] first_with_id(old(self).games@, id@, i) ==> status_set_at(old(self).games@, final(self).games@, i, None)
                &&& !game_ids(old(self).app_state.games@).contains(id@) ==> final(self).app_state.games@ == old(self).app_state.games@
                &&& forall|i: int| #[trigger] first_with_id(old(self).app_state.games@, id@, i) ==> status_set_at(old(self).app_state.games@, final(self).app_state.games@, i, None)
                &&& acts@.len() == 4
                &&& acts@[2] is Save
                &&& acts@[3] matches WindowAction::List(ListCommand::SetGameStatus { id: x, installed, version: v, latest_version })
                    && x@ == id@ && !installed && v is None && opt_chars(latest_version) == opt_chars(old(self).latest_version)
            }),
    {
        let mut acts: Vec<WindowAction> = Vec::new();
        acts.push(WindowAction::Detail(DetailCommand::ClearProgress));
        acts.push(WindowAction::Detail(DetailCommand::MarkUninstalled));
        match &self.current_game_id {
            None => acts,
            Some(id) => {
                let id = id.clone();
                set_status_of(&mut self.games, id.as_str(), InstallStatus::NotInstalled);
                set_status_of(&mut self.app_state.games, id.as_str(), InstallStatus::NotInstalled);
                acts.push(WindowAction::Save);
                acts.push(WindowAction::List(ListCommand::SetGameStatus {
                    id,
                    installed: false,
                    version: None,
                    latest_version: crate::text::clone_opt(&self.latest_version),
                }));
                acts
            },
        }
    }

    /// The install worker failed: the message shows in the detail pane.
    pub fn worker_error(&self, e: &str) -> (acts: Vec<WindowAction>)
        ensures
            acts@.len() == 1,
            acts@[0] matches WindowAction::Detail(DetailCommand::SetProgress(m)) && m@ == "Error: "@ + e@,
    {
        let mut m = "Error: ".to_owned();
        push_str(&mut m, e);
        one(WindowAction::Detail(DetailCommand::SetProgress(m)))
    }

    /// The Add Game button: the dialog opens.
    pub fn add_game_requested(&self) -> (acts: Vec<WindowAction>)
        ensures
            acts@.len() == 1,
            acts@[0] is OpenAddGameDialog,
    {
        one(WindowAction::OpenAddGameDialog)
    }

    /// A game was added by hand: it joins the saved games (which are saved)
    /// and the list, gets its card (and, once the latest version is known, its
    /// status), and the dialog learns the new set of directories.
    pub fn game_added(&mut self, name: String, path: String, arch: ExeArch) -> (acts: Vec<WindowAction>)
        ensures
            final(self).same_but_games(old(self)),
            final(self).app_state.games@.len() == old(self).app_state.games@.len() + 1,
            final(self).app_state.games@.drop_last() == old(self).app_state.games@,
            game_view(final(self).app_state.games@.last()) == spec_added_game(name@, path@, arch),
            final(self).games@.len() == old(self).games@.len() + 1,
            final(self).games@.drop_last() == old(self).games@,
            game_view(final(self).games@.last()) == spec_added_game(name@, path@, arch),
            acts@.len() == (if old(self).latest_version is Some { 4int } else { 3int }),
            acts@[0] is Save,
            acts@[1] matches WindowAction::List(ListCommand::AddGame(g)) && game_view(g) == spec_added_game(name@, path@, arch),
            old(self).latest_version is Some ==> (acts@[2] matches WindowAction::List(ListCommand::SetGameStatus { id, installed, version, latest_version })
                && id@ == spec_make_id(path@) && !installed && version is None
                && opt_chars(latest_version) == opt_chars(old(self).latest_version)),
            acts@.last() matches WindowAction::UpdateExistingPaths(paths) && names(paths@) == game_paths(final(self).games@),
    {
        let mut game = Game::new(name, path, GameSource::Manual);
        game.preferred_arch = Some(arch);
        let saved = clone_game(&game);
        let shown = clone_game(&game);
        let ghost a0 = self.app_state.games@;
        let ghost g0 = self.games@;
        self.app_state.games.push(saved);
        let mut acts: Vec<WindowAction> = Vec::new();
        acts.push(WindowAction::Save);
        let id = game.id.clone();
        self.games.push(game);
        acts.push(WindowAction::List(ListCommand::AddGame(shown)));
        if self.latest_version.is_some() {
            acts.push(WindowAction::List(ListCommand::SetGameStatus {
                id,
                installed: false,
                version: None,
                latest_version: crate::text::clone_opt(&self.latest_version),
            }));
        }
        let mut paths: Vec<String> = Vec::new();
        let mut i: usize = 0;
        while i < self.games.len()
            invariant
                i <= self.games@.len(),
                paths@.len() == i,
                forall|j: int| 0 <= j < i ==> (#[trigger] paths@[j])@ == self.games@[j].path@,
            decreases self.games.len() - i,
        {
            paths.push(self.games[i].path.clone());
            i = i + 1;
        }
        assert(names(paths@) =~= game_paths(self.games@));
        acts.push(WindowAction::UpdateExistingPaths(paths));
        assert(self.app_state.games@.drop_last() =~= a0);
        assert(self.games@.drop_last() =~= g0);
        acts
    }

    /// A per-game repository switch changed: the first matching game of each
    /// list gets the change, the state is saved when the saved list had the
    /// game, and the game's shader tree is rebuilt.
    pub fn shader_toggled(&mut self, game_id: &str, repo_name: &str, enabled: bool) -> (acts: Vec<WindowAction>)
        ensures
            final(self).same_but_games(old(self)),
            !game_ids(old(self).games@).contains(game_id@) ==> final(self).games@ == old(self).games@,
            forall|i: int| #[trigger] first_with_id(old(self).games@, game_id@, i) ==> toggled_at(old(self).games@, final(self).games@, i, repo_name@, enabled),
            !game_ids(old(self).app_state.games@).contains(game_id@) ==> final(self).app_state.games@ == old(self).app_state.games@,
            forall|i: int| #[trigger] first_with_id(old(self).app_state.games@, game_id@, i) ==> toggled_at(old(self).app_state.games@, final(self).app_state.games@, i, repo_name@, enabled),
            ({
                let saved = game_ids(old(self).app_state.games@).contains(game_id@);
                let shown = game_ids(old(self).games@).contains(game_id@);
                &&& acts@.len() == (if saved { 1int } else { 0int }) + (if shown { 1int } else { 0int })
                &&& saved ==> acts@[0] is Save
                &&& forall|i: int| #[trigger] first_with_id(old(self).games@, game_id@, i) ==> (acts@.last() matches WindowAction::RebuildGameShaders { game_id: g, disabled_repos }
                    && g@ == game_id@ && names(disabled_repos@) == names(final(self).games@[i].shader_overrides.disabled_repos@))
            }),
    {
        let mut acts: Vec<WindowAction> = Vec::new();
        let shown = toggle_repo_of(&mut self.games, game_id, repo_name, enabled);
        if toggle_repo_of(&mut self.app_state.games, game_id, repo_name, enabled).is_some() {
            acts.push(WindowAction::Save);
        }
        match shown {
            Some(i) => {
                acts.push(WindowAction::RebuildGameShaders {
                    game_id: self.games[i].id.clone(),
                    disabled_repos: clone_strings(&self.games[i].shader_overrides.disabled_repos),
                });
            },
            None => {},
        }
        acts
    }

    /// The startup detection found a game's status: it is recorded in the
    /// list and its card updated.
    pub fn game_status_detected(&mut self, id: String, status: InstallStatus) -> (acts: Vec<WindowAction>)
        ensures
            final(self).same_but_games(old(self)),
            final(self).app_state.games@ == old(self).app_state.games@,
            !game_ids(old(self).games@).contains(id@) ==> final(self).games@ == old(self).games@,
            forall|i: int| #[trigger] first_with_id(old(self).games@, id@, i) ==> status_set_at(old(self).games@, final(self).games@, i, status_view(status)),
            acts@.len() == 1,
            acts@[0] matches WindowAction::List(ListCommand::SetGameStatus { id: x, installed, version, latest_version })
                && x@ == id@ && installed == (status is Installed)
                && opt_chars(version) == match status_view(status) {
                    Some((_, _, v)) => v,
                    None => None,
                }
                && opt_chars(latest_version) == opt_chars(old(self).latest_version),
    {
        let installed = status.is_installed();
        let version = match &status {
            InstallStatus::Installed { version, .. } => crate::text::clone_opt(version),
            InstallStatus::NotInstalled => None,
        };
        set_status_of(&mut self.games, id.as_str(), status);
        one(WindowAction::List(ListCommand::SetGameStatus {
            id,
            installed,
            version,
            latest_version: crate::text::clone_opt(&self.latest_version),
        }))
    }
}

} // verus!
