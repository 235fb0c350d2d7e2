//! The main window's answers to the requests of the Preferences page.
use vstd::prelude::*;

use crate::reshade::config::{clone_strings, drop_name, without_name, GlobalConfig};
use crate::reshade::game::{status_view, Game, InstallStatus};
use crate::reshade::reshade::{names, spec_split_version_key, spec_version_dir, split_version_key, version_dir};
use crate::text::{clone_opt, opt_chars, push_str};
use crate::ui::install_worker::InstallJob;
use crate::ui::window::{DetailCommand, ListCommand, PrefsCommand, Toast, WindowAction, WindowModel};

verus! {

/// Messages of the Preferences page to the window.
#[derive(Debug, Clone)]
pub enum PrefsMsg {
    /// The configuration changed.
    ConfigChanged(GlobalConfig),
    /// The latest `ReShade` version is known.
    LatestVersionFetched(String),
    /// Download this version key to the local cache.
    VersionDownloadRequested(String),
    /// A download finished.
    VersionDownloadComplete(String),
    /// A download failed.
    VersionDownloadError(String),
    /// Remove this cached version.
    VersionRemoveRequested(String),
}

/// The games with `ReShade` installed, as (identifier, installed version).
pub open spec fn installed_games(games: Seq<Game>) -> Seq<(Seq<char>, Option<Seq<char>>)>
    decreases games.len(),
{
    if games.len() == 0 {
        Seq::empty()
    } else {
        let prev = installed_games(games.drop_last());
        match status_view(games.last().status) {
            Some((_, _, v)) => prev.push((games.last().id@, v)),
            None => prev,
        }
    }
}

/// The plain value of a status request to the game list.
pub open spec fn status_request(a: WindowAction) -> Option<(Seq<char>, bool, Option<Seq<char>>, Option<Seq<char>>)> {
    match a {
        WindowAction::List(ListCommand::SetGameStatus { id, installed, version, latest_version }) => Some(
            (id@, installed, opt_chars(version), opt_chars(latest_version)),
        ),
        _ => None,
    }
}

fn one(a: WindowAction) -> (r: Vec<WindowAction>)
    ensures
        r@ == seq![a],
{
    let mut v: Vec<WindowAction> = Vec::new();
    v.push(a);
    v
}

impl WindowModel {
    /// The configuration changed: it is kept and saved.
    pub fn config_changed(&mut self, config: GlobalConfig) -> (acts: Vec<WindowAction>)
        ensures
            final(self).app_state.config == config,
            final(self).same_games(old(self)),
            final(self).app_state.data_dir == old(self).app_state.data_dir,
            final(self).app_state.reshade_version == old(self).app_state.reshade_version,
            final(self).known == old(self).known,
            final(self).current_game_id == old(self).current_game_id,
            final(self).installed_versions == old(self).installed_versions,
            final(self).latest_version == old(self).latest_version,
            acts@.len() == 1,
            acts@[0] is Save,
    {
        self.app_state.config = config;
        one(WindowAction::Save)
    }

    /// The latest version is known: it is kept, the Preferences page learns
    /// it, and each installed game's card shows its version against it.
    pub fn latest_version_fetched(&mut self, version: String) -> (acts: Vec<WindowAction>)
        ensures
            opt_chars(final(self).latest_version) == Some(version@),
            final(self).same_games(old(self)),
            final(self).app_state == old(self).app_state,
            final(self).known == old(self).known,
            final(self).current_game_id == old(self).current_game_id,
            final(self).installed_versions == old(self).installed_versions,
            acts@.len() == 1 + installed_games(old(self).games@).len(),
            acts@[0] matches WindowAction::Prefs(PrefsCommand::SetLatestVersion(v)) && v@ == version@,
            forall|k: int| 0 <= k < installed_games(old(self).games@).len() ==> status_request(#[trigger] acts@[k + 1]) == Some(
                (installed_games(old(self).games@)[k].0, true, installed_games(old(self).games@)[k].1, Some(version@)),
            ),
    {
        self.latest_version = Some(version.clone());
        let mut acts: Vec<WindowAction> = Vec::new();
        acts.push(WindowAction::Prefs(PrefsCommand::SetLatestVersion(version.clone())));
        let mut i: usize = 0;
        assert(self.games@.take(0) =~= Seq::<Game>::empty());
        while i < self.games.len()
            invariant
                i <= self.games@.len(),
                acts@.len() == 1 + installed_games(self.games@.take(i as int)).len(),
                acts@[0] matches WindowAction::Prefs(PrefsCommand::SetLatestVersion(v)) && v@ == version@,
                forall|k: int| 0 <= k < installed_games(self.games@.take(i as int)).len() ==> status_request(#[trigger] acts@[k + 1]) == Some(
                    (installed_games(self.games@.take(i as int))[k].0, true, installed_games(self.games@.take(i as int))[k].1, Some(version@)),
                ),
            decreases self.games.len() - i,
        {
            let g = &self.games[i];
            assert(self.games@.take(i + 1).drop_last() =~= self.games@.take(i as int));
            match &g.status {
                InstallStatus::Installed { version: v, .. } => {
                    acts.push(WindowAction::List(ListCommand::SetGameStatus {
                        id: g.id.clone(),
                        installed: true,
                        version: clone_opt(v),
                        latest_version: Some(version.clone()),
                    }));
                },
                InstallStatus::NotInstalled => {},
            }
            i = i + 1;
        }
        assert(self.games@.take(self.games@.len() as int) =~= self.games@);
        acts
    }

    /// A download was asked for: the install worker downloads the version and
    /// variant that the key names.
    pub fn version_download_requested(&self, version_key: &str) -> (acts: Vec<WindowAction>)
        ensures
            acts@.len() == 1,
            acts@[0] matches WindowAction::Install(InstallJob::DownloadVersion { version, addon })
                && (version@, addon) == spec_split_version_key(version_key@),
    {
        let (version, addon) = split_version_key(version_key);
        one(WindowAction::Install(InstallJob::DownloadVersion { version, addon }))
    }

    /// A download finished: the version joins the cached ones; the detail pane
    /// (when a game is shown) and the Preferences page are told.
    pub fn version_download_complete(&mut self, version: String) -> (acts: Vec<WindowAction>)
        ensures
            names(final(self).installed_versions@) == names(old(self).installed_versions@).push(version@),
            final(self).same_games(old(self)),
            final(self).app_state == old(self).app_state,
            final(self).known == old(self).known,
            final(self).current_game_id == old(self).current_game_id,
            final(self).latest_version == old(self).latest_version,
            acts@.len() == (if old(self).current_game_id is Some { 2int } else { 1int }),
            old(self).current_game_id is Some ==> (acts@[0] matches WindowAction::Detail(DetailCommand::SetInstalledVersions(v))
                && names(v@) == names(final(self).installed_versions@)),
            acts@.last() matches WindowAction::Prefs(PrefsCommand::VersionDownloadComplete(v)) && v@ == version@,
    {
        let ghost v0 = self.installed_versions@;
        self.installed_versions.push(version.clone());
        assert(names(self.installed_versions@) =~= names(v0).push(version@));
        let mut acts: Vec<WindowAction> = Vec::new();
        if self.current_game_id.is_some() {
            acts.push(WindowAction::Detail(DetailCommand::SetInstalledVersions(clone_strings(&self.installed_versions))));
        }
        acts.push(WindowAction::Prefs(PrefsCommand::VersionDownloadComplete(version)));
        acts
    }

    /// A download failed: the Preferences page stops its spinners and a notice shows.
    pub fn version_download_error(&self, e: &str) -> (acts: Vec<WindowAction>)
        ensures
            acts@.len() == 2,
            acts@[0] matches WindowAction::Prefs(PrefsCommand::VersionOpError(m)) && m@ == e@,
            acts@[1] matches WindowAction::Toast(Toast::Message(m)) && m@ == "Download failed: "@ + e@,
    {
        let mut acts: Vec<WindowAction> = Vec::new();
        acts.push(WindowAction::Prefs(PrefsCommand::VersionOpError(e.to_owned())));
        let mut m = "Download failed: ".to_owned();
        push_str(&mut m, e);
        acts.push(WindowAction::Toast(Toast::Message(m)));
        acts
    }

    /// A removal was asked for: first the version's directory goes.
    pub fn version_remove_requested(&self, version: &str) -> (acts: Vec<WindowAction>)
        ensures
            acts@.len() == 1,
            acts@[0] matches WindowAction::RemoveVersionDir(d) && d@ == spec_version_dir(self.app_state.data_dir@, version@),
    {
        one(WindowAction::RemoveVersionDir(version_dir(self.app_state.data_dir.as_str(), version)))
    }

    /// The version's directory was removed, or failed to be (`outcome`). On
    /// failure the Preferences page reports it; otherwise the version leaves
    /// the update cache and the cached versions, and the Preferences page and
    /// (when a game is shown) the detail pane are told.
    pub fn version_removed(&mut self, version: String, outcome: Result<(), String>) -> (acts: Vec<WindowAction>)
        ensures
            final(self).same_games(old(self)),
            final(self).app_state == old(self).app_state,
            final(self).known == old(self).known,
            final(self).current_game_id == old(self).current_game_id,
            final(self).latest_version == old(self).latest_version,
            outcome matches Err(e) ==> acts@.len() == 1 && (acts@[0] matches WindowAction::Prefs(PrefsCommand::VersionOpError(m)) && m@ == e@)
                && final(self).installed_versions == old(self).installed_versions,
            outcome is Ok ==> ({
                &&& names(final(self).installed_versions@) == drop_name(names(old(self).installed_versions@), version@)
                &&& acts@.len() == (if old(self).current_game_id is Some { 3int } else { 2int })
                &&& acts@[0] matches WindowAction::ForgetVersion(v) && v@ == version@
                &&& acts@[1] matches WindowAction::Prefs(PrefsCommand::VersionRemoveComplete(v)) && v@ == version@
                &&& old(self).current_game_id is Some ==> (acts@[2] matches WindowAction::Detail(DetailCommand::SetInstalledVersions(v))
                    && names(v@) == names(final(self).installed_versions@))
            }),
    {
        match outcome {
            Err(e) => one(WindowAction::Prefs(PrefsCommand::VersionOpError(e))),
            Ok(()) => {
                let mut acts: Vec<WindowAction> = Vec::new();
                acts.push(WindowAction::ForgetVersion(version.clone()));
                acts.push(WindowAction::Prefs(PrefsCommand::VersionRemoveComplete(version.clone())));
                self.installed_versions = without_name(&self.installed_versions, version.as_str());
                if self.current_game_id.is_some() {
                    acts.push(WindowAction::Detail(DetailCommand::SetInstalledVersions(clone_strings(&self.installed_versions))));
                }
                acts
            },
        }
    }
}

} // verus!
