//! The main window's answers to the requests of the Shaders page.
use vstd::prelude::*;

use crate::reshade::catalog::CatalogEntry;
use crate::reshade::config::{clone_repo, repo_view, repo_views, ShaderRepo};
use crate::reshade::paths::{join, spec_join, RESHADE_SHADERS_DIR};
use crate::reshade::reshade::names;
use crate::text::str_eq;
use crate::ui::shader_worker::ShaderJob;
use crate::ui::window::{CatalogCommand, Toast, WindowAction, WindowModel};
use crate::ui::worker_types::{spec_progress_message, ProgressEvent};

verus! {

/// The test "this repository does not have the local name `name`".
pub open spec fn other_repo(name: Seq<char>) -> spec_fn(ShaderRepo) -> bool {
    |r: ShaderRepo| r.local_name@ != name
}

/// Removes every repository with the local name `name`, keeping the others in order.
pub fn remove_repo_by_name(repos: &mut Vec<ShaderRepo>, name: &str)
    ensures
        final(repos)@ == old(repos)@.filter(other_repo(name@)),
{
    let ghost orig = repos@;
    let ghost p = other_repo(name@);
    let ghost mut j: int = 0;
    let mut i: usize = 0;
    assert(orig.take(0).filter(p) =~= Seq::<ShaderRepo>::empty()) by {
        reveal_with_fuel(Seq::filter, 1);
    }
    assert(repos@.take(0) =~= Seq::<ShaderRepo>::empty());
    assert(repos@.skip(0) =~= orig.skip(0));
    while i < repos.len()
        invariant
            0 <= i <= repos@.len(),
            0 <= j <= orig.len(),
            p == other_repo(name@),
            repos@.take(i as int) == orig.take(j).filter(p),
            repos@.skip(i as int) == orig.skip(j),
            repos@.len() - i == orig.len() - j,
        decreases repos.len() - i,
    {
        let ghost r = repos@[i as int];
        assert(r == orig[j]) by {
            assert(repos@.skip(i as int)[0] == orig.skip(j)[0]);
        }
        proof {
            orig.take(j).lemma_filter_push(r, p);
            assert(orig.take(j + 1) =~= orig.take(j).push(r));
        }
        if str_eq(repos[i].local_name.as_str(), name) {
            let ghost before = repos@;
            repos.remove(i);
            assert(repos@.take(i as int) =~= before.take(i as int));
            assert(repos@.skip(i as int) =~= before.skip(i + 1));
            assert(before.skip(i + 1) =~= before.skip(i as int).drop_first());
            assert(orig.skip(j + 1) =~= orig.skip(j).drop_first());
        } else {
            assert(repos@.take(i + 1) =~= repos@.take(i as int).push(r));
            assert(repos@.skip(i + 1) =~= repos@.skip(i as int).drop_first());
            assert(orig.skip(j + 1) =~= orig.skip(j).drop_first());
            i = i + 1;
        }
        proof {
            j = j + 1;
        }
    }
    assert(orig.take(j) =~= orig);
    assert(repos@.take(i as int) =~= repos@);
}

/// Some catalog entry has the URL or the local name of `repo`.
pub open spec fn spec_in_catalog(known: Seq<CatalogEntry>, repo: ShaderRepo) -> bool {
    exists|i: int| 0 <= i < known.len() && ((#[trigger] known[i]).url@ == repo.url@ || known[i].local_name@ == repo.local_name@)
}

/// Some configured repository has the URL or the local name of `repo`.
pub open spec fn spec_configured(repos: Seq<ShaderRepo>, repo: ShaderRepo) -> bool {
    exists|i: int| 0 <= i < repos.len() && ((#[trigger] repos[i]).url@ == repo.url@ || repos[i].local_name@ == repo.local_name@)
}

fn in_catalog(known: &Vec<CatalogEntry>, repo: &ShaderRepo) -> (r: bool)
    ensures
        r == spec_in_catalog(known@, *repo),
{
    let mut i: usize = 0;
    while i < known.len()
        invariant
            i <= known@.len(),
            forall|j: int| 0 <= j < i ==> !((#[trigger] known@[j]).url@ == repo.url@ || known@[j].local_name@ == repo.local_name@),
        decreases known.len() - i,
    {
        if str_eq(known[i].url.as_str(), repo.url.as_str()) || str_eq(known[i].local_name.as_str(), repo.local_name.as_str()) {
            return true;
        }
        i = i + 1;
    }
    false
}

fn configured(repos: &Vec<ShaderRepo>, repo: &ShaderRepo) -> (r: bool)
    ensures
        r == spec_configured(repos@, *repo),
{
    let mut i: usize = 0;
    while i < repos.len()
        invariant
            i <= repos@.len(),
            forall|j: int| 0 <= j < i ==> !((#[trigger] repos@[j]).url@ == repo.url@ || repos@[j].local_name@ == repo.local_name@),
        decreases repos.len() - i,
    {
        if str_eq(repos[i].url.as_str(), repo.url.as_str()) || str_eq(repos[i].local_name.as_str(), repo.local_name.as_str()) {
            return true;
        }
        i = i + 1;
    }
    false
}

fn one(a: WindowAction) -> (r: Vec<WindowAction>)
    ensures
        r@ == seq![a],
{
    let mut v: Vec<WindowAction> = Vec::new();
    v.push(a);
    v
}

impl WindowModel {
    /// A download was asked for: the shader worker syncs the one repository.
    pub fn download_requested(&self, repo: ShaderRepo) -> (acts: Vec<WindowAction>)
        ensures
            acts@.len() == 1,
            acts@[0] matches WindowAction::Shaders(ShaderJob::SyncOne { repo: r, data_dir })
                && repo_view(r) == repo_view(repo) && data_dir@ == self.app_state.data_dir@,
    {
        one(WindowAction::Shaders(ShaderJob::SyncOne { repo, data_dir: self.app_state.data_dir.clone() }))
    }

    /// Sync progress: forwarded to the catalog.
    pub fn shader_progress(&self, event: &ProgressEvent) -> (acts: Vec<WindowAction>)
        ensures
            acts@.len() == 1,
            acts@[0] matches WindowAction::Catalog(CatalogCommand::SyncProgress(m)) && m@ == spec_progress_message(*event),
    {
        one(WindowAction::Catalog(CatalogCommand::SyncProgress(event.message())))
    }

    /// The sync finished: the catalog is told.
    pub fn sync_complete(&self) -> (acts: Vec<WindowAction>)
        ensures
            acts@.len() == 1,
            acts@[0] matches WindowAction::Catalog(CatalogCommand::SyncComplete),
    {
        one(WindowAction::Catalog(CatalogCommand::SyncComplete))
    }

    /// The sync failed: the catalog is told.
    pub fn sync_error(&self, e: String) -> (acts: Vec<WindowAction>)
        ensures
            acts@.len() == 1,
            acts@[0] matches WindowAction::Catalog(CatalogCommand::SyncError(m)) && m@ == e@,
    {
        one(WindowAction::Catalog(CatalogCommand::SyncError(e)))
    }

    /// The "+" button: the add-repository dialog opens with the configured URLs.
    pub fn add_custom_repo_requested(&self) -> (acts: Vec<WindowAction>)
        ensures
            acts@.len() == 1,
            acts@[0] matches WindowAction::OpenAddRepoDialog(urls) && names(urls@) == self.app_state.config.shader_repos@.map_values(
                |r: ShaderRepo| r.url@,
            ),
    {
        let mut urls: Vec<String> = Vec::new();
        let mut i: usize = 0;
        while i < self.app_state.config.shader_repos.len()
            invariant
                i <= self.app_state.config.shader_repos@.len(),
                urls@.len() == i,
                forall|j: int| 0 <= j < i ==> (#[trigger] urls@[j])@ == self.app_state.config.shader_repos@[j].url@,
            decreases self.app_state.config.shader_repos.len() - i,
        {
            urls.push(self.app_state.config.shader_repos[i].url.clone());
            i = i + 1;
        }
        assert(names(urls@) =~= self.app_state.config.shader_repos@.map_values(|r: ShaderRepo| r.url@));
        one(WindowAction::OpenAddRepoDialog(urls))
    }

    /// A custom repository was removed: it leaves the configuration (which is
    /// saved), its directory is deleted and the catalog drops its row.
    pub fn remove_custom_repo_requested(&mut self, repo: ShaderRepo) -> (acts: Vec<WindowAction>)
        ensures
            final(self).app_state.config.shader_repos@ == old(self).app_state.config.shader_repos@.filter(other_repo(repo.local_name@)),
            final(self).app_state.config.merge_shaders == old(self).app_state.config.merge_shaders,
            final(self).app_state.config.update_interval_hours == old(self).app_state.config.update_interval_hours,
            final(self).same_games(old(self)),
            final(self).app_state.data_dir == old(self).app_state.data_dir,
            final(self).known == old(self).known,
            final(self).current_game_id == old(self).current_game_id,
            final(self).installed_versions == old(self).installed_versions,
            final(self).latest_version == old(self).latest_version,
            acts@.len() == 3,
            acts@[0] is SaveLogged,
            acts@[1] matches WindowAction::RemoveRepoDir(d)
                && d@ == spec_join(spec_join(old(self).app_state.data_dir@, RESHADE_SHADERS_DIR@), repo.local_name@),
            acts@[2] matches WindowAction::Catalog(CatalogCommand::RemoveCustomRepo(r)) && repo_view(r) == repo_view(repo),
    {
        remove_repo_by_name(&mut self.app_state.config.shader_repos, repo.local_name.as_str());
        let mut acts: Vec<WindowAction> = Vec::new();
        acts.push(WindowAction::SaveLogged);
        let repos_dir = join(self.app_state.data_dir.as_str(), RESHADE_SHADERS_DIR);
        acts.push(WindowAction::RemoveRepoDir(join(repos_dir.as_str(), repo.local_name.as_str())));
        acts.push(WindowAction::Catalog(CatalogCommand::RemoveCustomRepo(repo)));
        acts
    }

    /// A custom repository was confirmed: refused with a notice when a catalog
    /// entry or a configured repository has its URL or name; otherwise it joins
    /// the configuration (which is saved) and the catalog adds its row.
    pub fn repo_added(&mut self, repo: ShaderRepo) -> (acts: Vec<WindowAction>)
        ensures
            final(self).app_state.config.merge_shaders == old(self).app_state.config.merge_shaders,
            final(self).app_state.config.update_interval_hours == old(self).app_state.config.update_interval_hours,
            final(self).same_games(old(self)),
            final(self).app_state.data_dir == old(self).app_state.data_dir,
            final(self).known == old(self).known,
            final(self).current_game_id == old(self).current_game_id,
            final(self).installed_versions == old(self).installed_versions,
            final(self).latest_version == old(self).latest_version,
            spec_in_catalog(old(self).known@, repo) ==> acts@.len() == 1 && (acts@[0] matches WindowAction::Toast(Toast::RepoInCatalog))
                && final(self).app_state.config.shader_repos@ == old(self).app_state.config.shader_repos@,
            !spec_in_catalog(old(self).known@, repo) && spec_configured(old(self).app_state.config.shader_repos@, repo) ==> acts@.len() == 1
                && (acts@[0] matches WindowAction::Toast(Toast::RepoDuplicate))
                && final(self).app_state.config.shader_repos@ == old(self).app_state.config.shader_repos@,
            !spec_in_catalog(old(self).known@, repo) && !spec_configured(old(self).app_state.config.shader_repos@, repo) ==> acts@.len() == 2
                && repo_views(final(self).app_state.config.shader_repos@) == repo_views(old(self).app_state.config.shader_repos@).push(repo_view(repo))
                && acts@[0] is SaveLogged
                && (acts@[1] matches WindowAction::Catalog(CatalogCommand::AddCustomRepo(r)) && repo_view(r) == repo_view(repo)),
    {
        if in_catalog(&self.known, &repo) {
            return one(WindowAction::Toast(Toast::RepoInCatalog));
        }
        if configured(&self.app_state.config.shader_repos, &repo) {
            return one(WindowAction::Toast(Toast::RepoDuplicate));
        }
        let ghost r0 = self.app_state.config.shader_repos@;
        self.app_state.config.shader_repos.push(clone_repo(&repo));
        assert(repo_views(self.app_state.config.shader_repos@) =~= repo_views(r0).push(repo_view(repo)));
        let mut acts: Vec<WindowAction> = Vec::new();
        acts.push(WindowAction::SaveLogged);
        acts.push(WindowAction::Catalog(CatalogCommand::AddCustomRepo(repo)));
        acts
    }
}

} // verus!
