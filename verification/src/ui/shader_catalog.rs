//! The shader catalog tab: which repositories are on disk, which one is being
//! downloaded, and the queue of "Download All".
//!
//! One repository downloads at a time; the others wait in the queue and start,
//! in order, as each download ends.
use vstd::prelude::*;

use crate::reshade::catalog::{entry_repo, CatalogEntry};
use crate::reshade::config::{clone_repo, contains_name, repo_view, repo_views, ShaderRepo};
use crate::reshade::reshade::names;

verus! {

broadcast use vstd::seq_lib::lemma_seq_contains_after_push;

/// What the catalog tells the window.
#[derive(Debug, Clone)]
pub enum CatalogSignal {
    /// Download (clone or update) this repository.
    DownloadRequested(ShaderRepo),
    /// Open the add-repository dialog.
    AddCustomRepoRequested,
    /// Remove this custom repository from the configuration and the disk.
    RemoveCustomRepoRequested(ShaderRepo),
}

/// What the catalog asks of its widgets and of the window.
#[derive(Debug, Clone)]
pub enum CatalogAction {
    /// Add the row of the known entry at this index.
    AddKnownRow {
        /// Index into the known entries.
        index: usize,
        /// The repository is on disk (its button offers a re-download).
        installed: bool,
    },
    /// Add the row of a custom repository.
    AddCustomRow {
        /// The repository.
        repo: ShaderRepo,
        /// The repository is on disk.
        installed: bool,
    },
    /// Drop the row, button and spinner of a custom repository.
    RemoveCustomRow(String),
    /// Show the spinner of this repository's row.
    BeginSync(String),
    /// Restore the button of this repository's row; on success it offers a re-download.
    FinishSync {
        /// Local name of the repository.
        name: String,
        /// The download succeeded.
        success: bool,
    },
    /// Tell the window.
    Output(CatalogSignal),
}

/// An input message of the catalog tab.
#[derive(Debug, Clone)]
pub enum CatalogControl {
    /// The user asked to download the known entry at this index.
    DownloadRepo(usize),
    /// The user asked to download every known repository not on disk.
    DownloadAll,
    /// The "+" button was clicked.
    AddCustomRepoRequested,
    /// The window added this custom repository.
    AddCustomRepo(ShaderRepo),
    /// The trash button of this custom repository was clicked.
    RemoveCustomRepoRequested(ShaderRepo),
    /// The window removed this custom repository.
    RemoveCustomRepo(ShaderRepo),
    /// The user asked to download this custom repository.
    DownloadCustomRepo(ShaderRepo),
    /// Progress of the download in flight (only logged).
    SyncProgress(String),
    /// The download in flight succeeded.
    SyncComplete,
    /// The download in flight failed, with this message.
    SyncError(String),
}

/// The message asks for a download.
pub open spec fn is_download_request(m: CatalogControl) -> bool {
    m is DownloadRepo || m is DownloadAll || m is DownloadCustomRepo
}

/// The action asks the window to download a repository.
pub open spec fn requests_download(a: CatalogAction) -> bool {
    a matches CatalogAction::Output(CatalogSignal::DownloadRequested(_))
}

/// The shader catalog tab, apart from its widgets.
#[derive(Debug)]
pub struct ShaderCatalogModel {
    /// The community catalog, in display order.
    pub known: Vec<CatalogEntry>,
    /// Local names of the repositories on disk.
    pub installed: Vec<String>,
    /// Local name of the repository being downloaded, if any.
    pub syncing: Option<String>,
    /// Repositories waiting for their download, first one first.
    pub queue: Vec<ShaderRepo>,
    /// Local names of the custom repository rows shown.
    pub custom_rows: Vec<String>,
}

/// The repositories that the known entries stand for.
pub open spec fn entry_views(s: Seq<CatalogEntry>) -> Seq<(Seq<char>, Seq<char>, Option<Seq<char>>, bool)> {
    s.map_values(|e: CatalogEntry| entry_repo(e))
}

/// The local names of the known entries.
pub open spec fn entry_names(s: Seq<CatalogEntry>) -> Seq<Seq<char>> {
    s.map_values(|e: CatalogEntry| e.local_name@)
}

/// The local names of a list of repositories.
pub open spec fn repo_names(s: Seq<ShaderRepo>) -> Seq<Seq<char>> {
    s.map_values(|r: ShaderRepo| r.local_name@)
}

/// The test "this repository is not on disk".
pub open spec fn not_installed(installed: Seq<Seq<char>>) -> spec_fn((Seq<char>, Seq<char>, Option<Seq<char>>, bool)) -> bool {
    |t: (Seq<char>, Seq<char>, Option<Seq<char>>, bool)| !installed.contains(t.1)
}

/// What "Download All" queues: the known repositories not on disk, in catalog order.
pub open spec fn pending_repos(known: Seq<CatalogEntry>, installed: Seq<Seq<char>>) -> Seq<(Seq<char>, Seq<char>, Option<Seq<char>>, bool)> {
    entry_views(known).filter(not_installed(installed))
}

/// `installed` is exactly the names of `known` and `custom` found in `on_disk`.
pub open spec fn installed_from(
    installed: Seq<Seq<char>>,
    known: Seq<CatalogEntry>,
    custom: Seq<ShaderRepo>,
    on_disk: Seq<Seq<char>>,
) -> bool {
    forall|n: Seq<char>| #[trigger] installed.contains(n) <==> ((entry_names(known).contains(n)
        || repo_names(custom).contains(n)) && on_disk.contains(n))
}

impl ShaderCatalogModel {
    /// The tab is consistent: the queue is empty while nothing downloads, and
    /// no repository is recorded on disk twice.
    pub open spec fn wf(&self) -> bool {
        &&& self.syncing is None ==> self.queue@.len() == 0
        &&& names(self.installed@).no_duplicates()
    }

    /// Every field but the named ones is as in `old`.
    pub open spec fn same_lists(&self, old: &Self) -> bool {
        &&& self.known@ == old.known@
        &&& self.custom_rows@ == old.custom_rows@
    }

    /// Builds the tab for the known entries and the custom repositories:
    /// `on_disk` names the repository directories present. One row per known
    /// entry, then one per custom repository.
    pub fn init(known: Vec<CatalogEntry>, custom_repos: Vec<ShaderRepo>, on_disk: &Vec<String>) -> (r: (
        Self,
        Vec<CatalogAction>,
    ))
        ensures
            r.0.wf(),
            r.0.known@ == known@,
            r.0.syncing is None,
            installed_from(names(r.0.installed@), known@, custom_repos@, names(on_disk@)),
            names(r.0.custom_rows@) == repo_names(custom_repos@),
            r.1@.len() == known@.len() + custom_repos@.len(),
            forall|i: int|
                0 <= i < known@.len() ==> (#[trigger] r.1@[i] matches CatalogAction::AddKnownRow { index, installed }
                    && index == i && installed == names(r.0.installed@).contains(known@[i].local_name@)),
            forall|j: int|
                0 <= j < custom_repos@.len() ==> (#[trigger] r.1@[known@.len() + j] matches CatalogAction::AddCustomRow { repo, installed }
                    && repo_view(repo) == repo_view(custom_repos@[j])
                    && installed == names(r.0.installed@).contains(custom_repos@[j].local_name@)),
    {
        let mut installed: Vec<String> = Vec::new();
        let mut i: usize = 0;
        while i < known.len()
            invariant
                i <= known@.len(),
                names(installed@).no_duplicates(),
                forall|n: Seq<char>| #[trigger] names(installed@).contains(n) <==> (entry_names(known@.take(i as int)).contains(n)
                    && names(on_disk@).contains(n)),
            decreases known.len() - i,
        {
            let name = &known[i].local_name;
            let ghost before = names(installed@);
            assert(entry_names(known@.take(i + 1)) =~= entry_names(known@.take(i as int)).push(known@[i as int].local_name@));
            if contains_name(on_disk, name.as_str()) && !contains_name(&installed, name.as_str()) {
                installed.push(name.clone());
                assert(names(installed@) =~= before.push(name@));
                proof {
                    crate::reshade::config::lemma_push_fresh_no_dup(before, name@);
                }
            }
            i = i + 1;
        }
        assert(known@.take(known@.len() as int) =~= known@);
        let mut j: usize = 0;
        while j < custom_repos.len()
            invariant
                names(installed@).no_duplicates(),
                j <= custom_repos@.len(),
                forall|n: Seq<char>| #[trigger] names(installed@).contains(n) <==> ((entry_names(known@).contains(n)
                    || repo_names(custom_repos@.take(j as int)).contains(n)) && names(on_disk@).contains(n)),
            decreases custom_repos.len() - j,
        {
            let name = &custom_repos[j].local_name;
            let ghost before = names(installed@);
            assert(repo_names(custom_repos@.take(j + 1)) =~= repo_names(custom_repos@.take(j as int)).push(custom_repos@[j as int].local_name@));
            if contains_name(on_disk, name.as_str()) && !contains_name(&installed, name.as_str()) {
                installed.push(name.clone());
                assert(names(installed@) =~= before.push(name@));
                proof {
                    crate::reshade::config::lemma_push_fresh_no_dup(before, name@);
                }
            }
            j = j + 1;
        }
        assert(custom_repos@.take(custom_repos@.len() as int) =~= custom_repos@);
        let mut acts: Vec<CatalogAction> = Vec::new();
        let mut k: usize = 0;
        while k < known.len()
            invariant
                k <= known@.len(),
                acts@.len() == k,
                forall|m: int|
                    0 <= m < k ==> (#[trigger] acts@[m] matches CatalogAction::AddKnownRow { index, installed: inst }
                        && index == m && inst == names(installed@).contains(known@[m].local_name@)),
            decreases known.len() - k,
        {
            let inst = contains_name(&installed, known[k].local_name.as_str());
            acts.push(CatalogAction::AddKnownRow { index: k, installed: inst });
            k = k + 1;
        }
        let mut rows: Vec<String> = Vec::new();
        let mut c: usize = 0;
        while c < custom_repos.len()
            invariant
                c <= custom_repos@.len(),
                acts@.len() == known@.len() + c,
                rows@.len() == c,
                forall|m: int| 0 <= m < c ==> (#[trigger] rows@[m])@ == custom_repos@[m].local_name@,
                forall|m: int|
                    0 <= m < known@.len() ==> (#[trigger] acts@[m] matches CatalogAction::AddKnownRow { index, installed: inst }
                        && index == m && inst == names(installed@).contains(known@[m].local_name@)),
                forall|m: int|
                    0 <= m < c ==> (#[trigger] acts@[known@.len() + m] matches CatalogAction::AddCustomRow { repo, installed: inst }
                        && repo_view(repo) == repo_view(custom_repos@[m])
                        && inst == names(installed@).contains(custom_repos@[m].local_name@)),
            decreases custom_repos.len() - c,
        {
            let repo = &custom_repos[c];
            let inst = contains_name(&installed, repo.local_name.as_str());
            acts.push(CatalogAction::AddCustomRow { repo: clone_repo(repo), installed: inst });
            rows.push(repo.local_name.clone());
            c = c + 1;
        }
        assert(names(rows@) =~= repo_names(custom_repos@));
        let model = ShaderCatalogModel {
            known,
            installed,
            syncing: None,
            queue: Vec::new(),
            custom_rows: rows,
        };
        (model, acts)
    }

    /// The user asked to download `repo` (a catalog entry or a custom
    /// repository): ignored while another download runs.
    pub fn download(&mut self, repo: ShaderRepo) -> (acts: Vec<CatalogAction>)
        requires
            old(self).wf(),
        ensures
            final(self).wf(),
            final(self).same_lists(old(self)),
            final(self).installed@ == old(self).installed@,
            final(self).queue@ == old(self).queue@,
            old(self).syncing is Some ==> final(self).syncing == old(self).syncing && acts@.len() == 0,
            old(self).syncing is None ==> (final(self).syncing matches Some(n) && n@ == repo.local_name@)
                && acts@.len() == 2
                && (acts@[0] matches CatalogAction::BeginSync(b) && b@ == repo.local_name@)
                && (acts@[1] matches CatalogAction::Output(CatalogSignal::DownloadRequested(d)) && repo_view(d) == repo_view(repo)),
    {
        let mut acts: Vec<CatalogAction> = Vec::new();
        if self.syncing.is_some() {
            return acts;
        }
        self.syncing = Some(repo.local_name.clone());
        acts.push(CatalogAction::BeginSync(repo.local_name.clone()));
        acts.push(CatalogAction::Output(CatalogSignal::DownloadRequested(repo)));
        acts
    }

    /// The user asked to download the known entry at `index`.
    pub fn download_known(&mut self, index: usize) -> (acts: Vec<CatalogAction>)
        requires
            old(self).wf(),
            index < old(self).known@.len(),
        ensures
            final(self).wf(),
            final(self).same_lists(old(self)),
            final(self).installed@ == old(self).installed@,
            final(self).queue@ == old(self).queue@,
            old(self).syncing is Some ==> final(self).syncing == old(self).syncing && acts@.len() == 0,
            old(self).syncing is None ==> (final(self).syncing matches Some(n) && n@ == old(self).known@[index as int].local_name@)
                && acts@.len() == 2
                && (acts@[0] matches CatalogAction::BeginSync(b) && b@ == old(self).known@[index as int].local_name@)
                && (acts@[1] matches CatalogAction::Output(CatalogSignal::DownloadRequested(d))
                    && repo_view(d) == entry_repo(old(self).known@[index as int])),
    {
        let repo = self.known[index].to_shader_repo();
        self.download(repo)
    }

    /// Starts the next queued download, if any.
    fn start_next(&mut self) -> (acts: Vec<CatalogAction>)
        requires
            old(self).syncing is None,
        ensures
            final(self).same_lists(old(self)),
            final(self).installed@ == old(self).installed@,
            old(self).queue@.len() == 0 ==> final(self).syncing is None && final(self).queue@.len() == 0 && acts@.len() == 0,
            old(self).queue@.len() > 0 ==> final(self).queue@ == old(self).queue@.drop_first()
                && (final(self).syncing matches Some(n) && n@ == old(self).queue@[0].local_name@)
                && acts@.len() == 2
                && (acts@[0] matches CatalogAction::BeginSync(b) && b@ == old(self).queue@[0].local_name@)
                && (acts@[1] matches CatalogAction::Output(CatalogSignal::DownloadRequested(d)) && repo_view(d) == repo_view(old(self).queue@[0])),
    {
        let mut acts: Vec<CatalogAction> = Vec::new();
        if self.queue.len() == 0 {
            return acts;
        }
        let next = self.queue.remove(0);
        assert(self.queue@ =~= old(self).queue@.drop_first());
        self.syncing = Some(next.local_name.clone());
        acts.push(CatalogAction::BeginSync(next.local_name.clone()));
        acts.push(CatalogAction::Output(CatalogSignal::DownloadRequested(next)));
        acts
    }

    /// "Download All": queues every known repository not on disk, in catalog
    /// order, and starts the first. Ignored while a download runs.
    pub fn download_all(&mut self) -> (acts: Vec<CatalogAction>)
        requires
            old(self).wf(),
        ensures
            final(self).wf(),
            final(self).same_lists(old(self)),
            final(self).installed@ == old(self).installed@,
            old(self).syncing is Some ==> final(self).syncing == old(self).syncing && final(self).queue@ == old(self).queue@
                && acts@.len() == 0,
            old(self).syncing is None ==> ({
                let pending = pending_repos(old(self).known@, names(old(self).installed@));
                &&& pending.len() == 0 ==> final(self).syncing is None && acts@.len() == 0
                &&& pending.len() > 0 ==> repo_views(final(self).queue@) == pending.drop_first()
                    && (final(self).syncing matches Some(n) && n@ == pending[0].1)
                    && acts@.len() == 2
                    && (acts@[0] matches CatalogAction::BeginSync(b) && b@ == pending[0].1)
                    && (acts@[1] matches CatalogAction::Output(CatalogSignal::DownloadRequested(d)) && repo_view(d) == pending[0])
            }),
    {
        if self.syncing.is_some() {
            return Vec::new();
        }
        let ghost inst = names(self.installed@);
        let ghost pred = not_installed(inst);
        let mut queue: Vec<ShaderRepo> = Vec::new();
        let mut i: usize = 0;
        assert(entry_views(self.known@.take(0)) =~= Seq::empty());
        reveal_with_fuel(Seq::filter, 1);
        while i < self.known.len()
            invariant
                i <= self.known@.len(),
                inst == names(self.installed@),
                pred == not_installed(inst),
                repo_views(queue@) == entry_views(self.known@.take(i as int)).filter(pred),
            decreases self.known.len() - i,
        {
            let ghost prefix = entry_views(self.known@.take(i as int));
            let ghost e = entry_repo(self.known@[i as int]);
            assert(entry_views(self.known@.take(i + 1)) =~= prefix.push(e));
            proof {
                prefix.lemma_filter_push(e, pred);
            }
            if !contains_name(&self.installed, self.known[i].local_name.as_str()) {
                let repo = self.known[i].to_shader_repo();
                let ghost q0 = queue@;
                queue.push(repo);
                assert(repo_views(queue@) =~= repo_views(q0).push(e));
            }
            i = i + 1;
        }
        assert(self.known@.take(self.known@.len() as int) =~= self.known@);
        self.queue = queue;
        let acts = self.start_next();
        proof {
            let p = pending_repos(old(self).known@, inst);
            if p.len() > 0 {
                assert(repo_views(old(self).queue@) =~= Seq::empty());
                assert(repo_views(queue@).drop_first() =~= repo_views(queue@.drop_first()));
                assert(repo_views(queue@)[0] == repo_view(queue@[0]));
            } else {
                assert(repo_views(queue@).len() == 0);
            }
        }
        acts
    }

    /// The "+" button: the window opens the add-repository dialog.
    pub fn add_custom_repo_requested(&self) -> (acts: Vec<CatalogAction>)
        ensures
            acts@.len() == 1 && acts@[0] matches CatalogAction::Output(CatalogSignal::AddCustomRepoRequested),
    {
        let mut acts: Vec<CatalogAction> = Vec::new();
        acts.push(CatalogAction::Output(CatalogSignal::AddCustomRepoRequested));
        acts
    }

    /// The trash button of a custom row: the window removes the repository.
    pub fn remove_custom_repo_requested(&self, repo: ShaderRepo) -> (acts: Vec<CatalogAction>)
        ensures
            acts@.len() == 1 && (acts@[0] matches CatalogAction::Output(CatalogSignal::RemoveCustomRepoRequested(r))
                && repo_view(r) == repo_view(repo)),
    {
        let mut acts: Vec<CatalogAction> = Vec::new();
        acts.push(CatalogAction::Output(CatalogSignal::RemoveCustomRepoRequested(repo)));
        acts
    }

    /// The window added a custom repository: its row appears.
    pub fn add_custom_repo(&mut self, repo: ShaderRepo) -> (acts: Vec<CatalogAction>)
        requires
            old(self).wf(),
        ensures
            final(self).wf(),
            final(self).known@ == old(self).known@,
            final(self).installed@ == old(self).installed@,
            final(self).syncing == old(self).syncing,
            final(self).queue@ == old(self).queue@,
            names(final(self).custom_rows@) == names(old(self).custom_rows@).push(repo.local_name@),
            acts@.len() == 1 && (acts@[0] matches CatalogAction::AddCustomRow { repo: r, installed }
                && repo_view(r) == repo_view(repo)
                && installed == names(old(self).installed@).contains(repo.local_name@)),
    {
        let installed = contains_name(&self.installed, repo.local_name.as_str());
        let ghost rows0 = self.custom_rows@;
        self.custom_rows.push(repo.local_name.clone());
        assert(names(self.custom_rows@) =~= names(rows0).push(repo.local_name@));
        let mut acts: Vec<CatalogAction> = Vec::new();
        acts.push(CatalogAction::AddCustomRow { repo, installed });
        acts
    }

    /// The window removed a custom repository: it is no longer on disk and its
    /// row goes.
    pub fn remove_custom_repo(&mut self, repo: ShaderRepo) -> (acts: Vec<CatalogAction>)
        requires
            old(self).wf(),
        ensures
            final(self).wf(),
            final(self).known@ == old(self).known@,
            final(self).syncing == old(self).syncing,
            final(self).queue@ == old(self).queue@,
            names(final(self).installed@) == crate::reshade::config::drop_name(names(old(self).installed@), repo.local_name@),
            names(final(self).custom_rows@) == crate::reshade::config::drop_name(names(old(self).custom_rows@), repo.local_name@),
            names(old(self).custom_rows@).contains(repo.local_name@) ==> acts@.len() == 1
                && (acts@[0] matches CatalogAction::RemoveCustomRow(n) && n@ == repo.local_name@),
            !names(old(self).custom_rows@).contains(repo.local_name@) ==> acts@.len() == 0,
    {
        let ghost inst0 = names(self.installed@);
        self.installed = crate::reshade::config::without_name(&self.installed, repo.local_name.as_str());
        proof {
            crate::reshade::config::lemma_filter_no_dup(inst0, repo.local_name@);
        }
        let mut acts: Vec<CatalogAction> = Vec::new();
        if contains_name(&self.custom_rows, repo.local_name.as_str()) {
            acts.push(CatalogAction::RemoveCustomRow(repo.local_name.clone()));
        }
        self.custom_rows = crate::reshade::config::without_name(&self.custom_rows, repo.local_name.as_str());
        acts
    }

    /// The download in flight ended: on success its repository is on disk. The
    /// next queued download, if any, starts.
    pub fn sync_finished(&mut self, success: bool) -> (acts: Vec<CatalogAction>)
        requires
            old(self).wf(),
        ensures
            final(self).wf(),
            final(self).same_lists(old(self)),
            old(self).syncing is None ==> final(self).installed@ == old(self).installed@
                && final(self).syncing is None && final(self).queue@ == old(self).queue@ && acts@.len() == 0,
            old(self).syncing matches Some(n) ==> ({
                &&& success && !names(old(self).installed@).contains(n@) ==> names(final(self).installed@) == names(old(self).installed@).push(n@)
                &&& !(success && !names(old(self).installed@).contains(n@)) ==> final(self).installed@ == old(self).installed@
                &&& acts@.len() >= 1
                &&& acts@[0] matches CatalogAction::FinishSync { name, success: s } && name@ == n@ && s == success
                &&& old(self).queue@.len() == 0 ==> final(self).syncing is None && final(self).queue@.len() == 0 && acts@.len() == 1
                &&& old(self).queue@.len() > 0 ==> final(self).queue@ == old(self).queue@.drop_first()
                    && (final(self).syncing matches Some(m) && m@ == old(self).queue@[0].local_name@)
                    && acts@.len() == 3
                    && (acts@[1] matches CatalogAction::BeginSync(b) && b@ == old(self).queue@[0].local_name@)
                    && (acts@[2] matches CatalogAction::Output(CatalogSignal::DownloadRequested(d))
                        && repo_view(d) == repo_view(old(self).queue@[0]))
            }),
    {
        let mut acts: Vec<CatalogAction> = Vec::new();
        let current = self.syncing.take();
        match current {
            None => {
                return acts;
            },
            Some(name) => {
                if success && !contains_name(&self.installed, name.as_str()) {
                    let ghost before = names(self.installed@);
                    self.installed.push(name.clone());
                    assert(names(self.installed@) =~= before.push(name@));
                    proof {
                        crate::reshade::config::lemma_push_fresh_no_dup(before, name@);
                    }
                }
                acts.push(CatalogAction::FinishSync { name, success });
                let mut more = self.start_next();
                acts.append(&mut more);
                acts
            },
        }
    }

    /// Handles one input message: each message does what the method of the
    /// same name does (`SyncComplete` and `SyncError` end the download in
    /// flight with and without success; progress is only logged). While a
    /// download runs, download requests change nothing and ask for nothing; a
    /// download is asked for only when none ran or when the one in flight
    /// ended, it is then the one in flight, and at most one is asked for.
    pub fn update(&mut self, msg: CatalogControl) -> (acts: Vec<CatalogAction>)
        requires
            old(self).wf(),
            msg matches CatalogControl::DownloadRepo(i) ==> i < old(self).known@.len(),
        ensures
            final(self).wf(),
            final(self).known@ == old(self).known@,
            !(msg is AddCustomRepo || msg is RemoveCustomRepo) ==> final(self).custom_rows@ == old(self).custom_rows@,
            !(msg is RemoveCustomRepo || msg is SyncComplete || msg is SyncError) ==> final(self).installed@
                == old(self).installed@,
            !(msg is DownloadAll || msg is SyncComplete || msg is SyncError) ==> final(self).queue@ == old(self).queue@,
            (msg is AddCustomRepoRequested || msg is RemoveCustomRepoRequested || msg is SyncProgress)
                ==> final(self).syncing == old(self).syncing,
            old(self).syncing is Some && is_download_request(msg) ==> acts@.len() == 0
                && final(self).syncing == old(self).syncing && final(self).queue@ == old(self).queue@
                && final(self).installed@ == old(self).installed@,
            forall|i: int| 0 <= i < acts@.len() && #[trigger] requests_download(acts@[i]) ==>
                (old(self).syncing is None || msg is SyncComplete || msg is SyncError) && final(self).syncing is Some,
            forall|i: int, j: int| 0 <= i < j < acts@.len() ==> !(#[trigger] requests_download(acts@[i])
                && #[trigger] requests_download(acts@[j])),
            msg matches CatalogControl::DownloadRepo(i) ==> old(self).syncing is None ==> (final(self).syncing matches Some(n)
                && n@ == old(self).known@[i as int].local_name@)
                && acts@.len() == 2
                && (acts@[0] matches CatalogAction::BeginSync(b) && b@ == old(self).known@[i as int].local_name@)
                && (acts@[1] matches CatalogAction::Output(CatalogSignal::DownloadRequested(d))
                    && repo_view(d) == entry_repo(old(self).known@[i as int])),
            msg matches CatalogControl::DownloadCustomRepo(r) ==> old(self).syncing is None ==> (final(self).syncing matches Some(n)
                && n@ == r.local_name@)
                && acts@.len() == 2
                && (acts@[0] matches CatalogAction::BeginSync(b) && b@ == r.local_name@)
                && (acts@[1] matches CatalogAction::Output(CatalogSignal::DownloadRequested(d)) && repo_view(d) == repo_view(r)),
            msg is DownloadAll && old(self).syncing is None ==> ({
                let pending = pending_repos(old(self).known@, names(old(self).installed@));
                &&& pending.len() == 0 ==> final(self).syncing is None && acts@.len() == 0
                &&& pending.len() > 0 ==> repo_views(final(self).queue@) == pending.drop_first()
                    && (final(self).syncing matches Some(n) && n@ == pending[0].1)
                    && acts@.len() == 2
                    && (acts@[0] matches CatalogAction::BeginSync(b) && b@ == pending[0].1)
                    && (acts@[1] matches CatalogAction::Output(CatalogSignal::DownloadRequested(d)) && repo_view(d) == pending[0])
            }),
            msg is AddCustomRepoRequested ==> final(self).syncing == old(self).syncing && acts@.len() == 1
                && acts@[0] matches CatalogAction::Output(CatalogSignal::AddCustomRepoRequested),
            msg matches CatalogControl::RemoveCustomRepoRequested(r) ==> final(self).syncing == old(self).syncing
                && acts@.len() == 1 && (acts@[0] matches CatalogAction::Output(CatalogSignal::RemoveCustomRepoRequested(x))
                && repo_view(x) == repo_view(r)),
            msg matches CatalogControl::AddCustomRepo(r) ==> final(self).syncing == old(self).syncing
                && final(self).installed@ == old(self).installed@
                && names(final(self).custom_rows@) == names(old(self).custom_rows@).push(r.local_name@)
                && acts@.len() == 1 && (acts@[0] matches CatalogAction::AddCustomRow { repo: x, installed }
                    && repo_view(x) == repo_view(r) && installed == names(old(self).installed@).contains(r.local_name@)),
            msg matches CatalogControl::RemoveCustomRepo(r) ==> final(self).syncing == old(self).syncing
                && names(final(self).installed@) == crate::reshade::config::drop_name(names(old(self).installed@), r.local_name@)
                && names(final(self).custom_rows@) == crate::reshade::config::drop_name(names(old(self).custom_rows@), r.local_name@)
                && (names(old(self).custom_rows@).contains(r.local_name@) ==> acts@.len() == 1
                    && (acts@[0] matches CatalogAction::RemoveCustomRow(n) && n@ == r.local_name@))
                && (!names(old(self).custom_rows@).contains(r.local_name@) ==> acts@.len() == 0),
            msg is SyncProgress ==> final(self).syncing == old(self).syncing && final(self).queue@ == old(self).queue@
                && final(self).installed@ == old(self).installed@ && final(self).custom_rows@ == old(self).custom_rows@
                && acts@.len() == 0,
            (msg is SyncComplete || msg is SyncError) ==> ({
                let success = msg is SyncComplete;
                &&& old(self).syncing is None ==> final(self).installed@ == old(self).installed@
                    && final(self).syncing is None && final(self).queue@ == old(self).queue@ && acts@.len() == 0
                &&& old(self).syncing matches Some(n) ==> ({
                    &&& success && !names(old(self).installed@).contains(n@) ==> names(final(self).installed@)
                        == names(old(self).installed@).push(n@)
                    &&& !(success && !names(old(self).installed@).contains(n@)) ==> final(self).installed@ == old(self).installed@
                    &&& acts@.len() >= 1
                    &&& acts@[0] matches CatalogAction::FinishSync { name, success: s } && name@ == n@ && s == success
                    &&& old(self).queue@.len() == 0 ==> final(self).syncing is None && final(self).queue@.len() == 0
                        && acts@.len() == 1
                    &&& old(self).queue@.len() > 0 ==> final(self).queue@ == old(self).queue@.drop_first()
                        && (final(self).syncing matches Some(m) && m@ == old(self).queue@[0].local_name@)
                        && acts@.len() == 3
                        && (acts@[1] matches CatalogAction::BeginSync(b) && b@ == old(self).queue@[0].local_name@)
                        && (acts@[2] matches CatalogAction::Output(CatalogSignal::DownloadRequested(d))
                            && repo_view(d) == repo_view(old(self).queue@[0]))
                })
            }),
    {
        match msg {
            CatalogControl::DownloadRepo(i) => self.download_known(i),
            CatalogControl::DownloadAll => self.download_all(),
            CatalogControl::AddCustomRepoRequested => self.add_custom_repo_requested(),
            CatalogControl::AddCustomRepo(r) => self.add_custom_repo(r),
            CatalogControl::RemoveCustomRepoRequested(r) => self.remove_custom_repo_requested(r),
            CatalogControl::RemoveCustomRepo(r) => self.remove_custom_repo(r),
            CatalogControl::DownloadCustomRepo(r) => self.download(r),
            CatalogControl::SyncProgress(_) => Vec::new(),
            CatalogControl::SyncComplete => self.sync_finished(true),
            CatalogControl::SyncError(_) => self.sync_finished(false),
        }
    }
}

} // verus!
