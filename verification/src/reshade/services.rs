//! The default service backends: what they hold and what they compute before
//! touching the disk or the network.
use vstd::prelude::*;

use crate::reshade::app_state::AppState;
use crate::reshade::game::{spec_reshade_dll, ExeArch, Game};
use crate::reshade::paths::{join, spec_join};
use crate::reshade::reshade::{
    download_url, spec_download_url, spec_version_dir, spec_version_dir_key, version_dir,
    version_dir_key,
};

verus! {

/// Default provider of `ReShade` versions, rooted at the data directory.
pub struct DefaultReShadeProvider {
    data_dir: String,
}

/// What a download of one `ReShade` version involves.
#[derive(Debug, Clone)]
pub struct DownloadPlan {
    /// Cache key of the download (`6.7.3` or `6.7.3-Addon`).
    pub dir_key: String,
    /// Directory the installer is extracted into.
    pub version_dir: String,
    /// The file whose presence means the version is already cached.
    pub marker: String,
    /// Installer URL.
    pub url: String,
}

impl DefaultReShadeProvider {
    /// The data directory the provider works in.
    pub closed spec fn spec_data_dir(&self) -> Seq<char> {
        self.data_dir@
    }

    /// Creates a new provider rooted at `data_dir`.
    pub fn new(data_dir: String) -> (r: Self)
        ensures
            r.spec_data_dir() == data_dir@,
    {
        DefaultReShadeProvider { data_dir }
    }

    /// The data directory the provider works in.
    pub fn data_dir(&self) -> (r: &str)
        ensures
            r@ == self.spec_data_dir(),
    {
        self.data_dir.as_str()
    }

    /// Plans the download of `version` (the Addon Support variant when `addon`):
    /// the download is skipped when `ReShade64.dll` is already in the version directory.
    pub fn download_plan(&self, version: &str, addon: bool) -> (r: DownloadPlan)
        ensures
            r.dir_key@ == spec_version_dir_key(version@, addon),
            r.version_dir@ == spec_version_dir(self.spec_data_dir(), r.dir_key@),
            r.marker@ == spec_join(r.version_dir@, spec_reshade_dll(ExeArch::X86_64)),
            r.url@ == spec_download_url(version@, addon),
    {
        let dir_key = version_dir_key(version, addon);
        let vdir = version_dir(self.data_dir.as_str(), dir_key.as_str());
        let marker = join(vdir.as_str(), ExeArch::X86_64.reshade_dll());
        let url = download_url(version, addon);
        DownloadPlan { dir_key, version_dir: vdir, marker, url }
    }
}

/// Default shader sync backend (git clone/fetch and the merged symlink tree).
pub struct DefaultShaderSyncService;

/// Default game repository backed by the application state.
pub struct DefaultGameRepository {
    app_state: AppState,
}

impl DefaultGameRepository {
    /// The state the repository holds.
    pub closed spec fn spec_app_state(&self) -> AppState {
        self.app_state
    }

    /// The games the repository holds.
    pub open spec fn spec_games(&self) -> Seq<Game> {
        self.spec_app_state().games@
    }

    /// Creates a new repository wrapping the given `app_state`.
    pub fn new(app_state: AppState) -> (r: Self)
        ensures
            r.spec_app_state() == app_state,
    {
        DefaultGameRepository { app_state }
    }

    /// Returns all known games.
    pub fn games(&self) -> (r: &[Game])
        ensures
            r@ == self.spec_games(),
    {
        self.app_state.games.as_slice()
    }

    /// The state the repository persists.
    pub fn app_state(&self) -> (r: &AppState)
        ensures
            *r == self.spec_app_state(),
    {
        &self.app_state
    }

    /// Replaces the stored game list (the caller then persists the state).
    pub fn replace_games(&mut self, games: Vec<Game>)
        ensures
            final(self).spec_games() == games@,
            final(self).spec_app_state().config == old(self).spec_app_state().config,
            final(self).spec_app_state().reshade_version == old(self).spec_app_state().reshade_version,
            final(self).spec_app_state().data_dir == old(self).spec_app_state().data_dir,
    {
        self.app_state.games = games;
    }
}

} // verus!
