//! The shader worker's decisions: which repository to clone or update next,
//! when to rebuild the merged tree, and what to report.
//!
//! The outside work (creating the directory, the Git operations, the rebuild)
//! is done by the caller, which hands back how each step went.
use vstd::prelude::*;

use crate::reshade::config::{clone_repo, clone_strings, repo_view, ShaderRepo};
use crate::reshade::paths::{join, spec_join, RESHADE_SHADERS_DIR};
use crate::reshade::reshade::names;
use crate::ui::worker_types::ProgressEvent;

verus! {

/// A job for the shader worker.
#[derive(Debug, Clone)]
pub enum ShaderJob {
    /// Clone or update all given repositories, then rebuild the merged tree.
    SyncAll {
        /// Repositories to sync, in priority order.
        repos: Vec<ShaderRepo>,
        /// Base data directory containing `ReShade_shaders/`.
        data_dir: String,
        /// Repository names left out of the merge.
        disabled_repos: Vec<String>,
    },
    /// Clone or update one repository, without rebuilding the merged tree.
    SyncOne {
        /// The repository.
        repo: ShaderRepo,
        /// Base data directory containing `ReShade_shaders/`.
        data_dir: String,
    },
}

/// What the shader worker reports.
#[derive(Debug, Clone)]
pub enum ShaderSignal {
    /// Syncing this repository now.
    Progress(ProgressEvent),
    /// The job finished.
    Complete,
    /// One repository failed; a full sync goes on with the others.
    RepoError {
        /// The repository's local name.
        repo_name: String,
        /// Error message.
        error: String,
    },
    /// A failure that stopped the job.
    Error(String),
}

/// Outside work the caller performs, then reports with [`ShaderWorker::step_done`].
#[derive(Debug, Clone)]
pub enum ShaderTask {
    /// Create this directory and its parents.
    CreateDir(String),
    /// Clone or update `repo` under `repos_dir`.
    Sync {
        /// The repository.
        repo: ShaderRepo,
        /// The directory that holds the clones.
        repos_dir: String,
    },
    /// Rebuild the merged tree of `repos_dir`, leaving out the disabled repositories.
    Rebuild {
        /// The directory that holds the clones.
        repos_dir: String,
        /// Repository names left out.
        disabled_repos: Vec<String>,
    },
}

/// Where the worker is in its job.
#[derive(Debug, Clone, Copy, PartialEq, Eq, Structural)]
pub enum ShaderStage {
    /// No job.
    Idle,
    /// Waiting for the repositories directory.
    CreatingDir,
    /// Waiting for the sync of the repository at this index.
    Syncing(usize),
    /// Waiting for the merged tree.
    Rebuilding,
}

/// One step: what to report, and the next outside work, if any.
#[derive(Debug, Clone)]
pub struct ShaderStep {
    /// Reports, in order.
    pub signals: Vec<ShaderSignal>,
    /// The next outside work; `None` when the job is over.
    pub task: Option<ShaderTask>,
}

/// The shader worker: the job in progress and where it stands.
#[derive(Debug)]
pub struct ShaderWorker {
    /// The repositories of the job, in order.
    pub repos: Vec<ShaderRepo>,
    /// `data_dir/ReShade_shaders`.
    pub repos_dir: String,
    /// Repository names left out of the merge.
    pub disabled_repos: Vec<String>,
    /// The job rebuilds the merged tree at the end.
    pub rebuild: bool,
    /// Where the job stands.
    pub stage: ShaderStage,
}

/// The step reports syncing `repo`, and asks for that sync.
pub open spec fn starts_sync(step: ShaderStep, repo: ShaderRepo, repos_dir: Seq<char>) -> bool {
    &&& step.task matches Some(ShaderTask::Sync { repo: r, repos_dir: d }) && repo_view(r) == repo_view(repo)
        && d@ == repos_dir
    &&& step.signals@.len() >= 1
    &&& step.signals@.last() matches ShaderSignal::Progress(ProgressEvent::SyncingRepo { name }) && name@ == repo.local_name@
}

impl ShaderWorker {
    /// The worker's state holds together: the stage points into the job.
    pub open spec fn wf(&self) -> bool {
        &&& self.stage matches ShaderStage::Syncing(i) ==> i < self.repos@.len()
        &&& !self.rebuild ==> self.repos@.len() == 1 && !(self.stage is Rebuilding)
    }

    /// An idle worker.
    pub fn new() -> (r: Self)
        ensures
            r.wf(),
            r.stage == ShaderStage::Idle,
    {
        ShaderWorker {
            repos: Vec::new(),
            repos_dir: String::new(),
            disabled_repos: Vec::new(),
            rebuild: true,
            stage: ShaderStage::Idle,
        }
    }

    /// Starts a job: first the repositories directory `data_dir/ReShade_shaders`
    /// is created.
    pub fn start(&mut self, job: ShaderJob) -> (step: ShaderStep)
        ensures
            final(self).wf(),
            final(self).stage == ShaderStage::CreatingDir,
            step.signals@.len() == 0,
            step.task matches Some(ShaderTask::CreateDir(d)) && d@ == final(self).repos_dir@,
            match job {
                ShaderJob::SyncAll { repos, data_dir, disabled_repos } => final(self).rebuild
                    && final(self).repos@ == repos@
                    && final(self).repos_dir@ == spec_join(data_dir@, RESHADE_SHADERS_DIR@)
                    && names(final(self).disabled_repos@) == names(disabled_repos@),
                ShaderJob::SyncOne { repo, data_dir } => !final(self).rebuild
                    && final(self).repos@.len() == 1 && repo_view(final(self).repos@[0]) == repo_view(repo)
                    && final(self).repos_dir@ == spec_join(data_dir@, RESHADE_SHADERS_DIR@),
            },
    {
        match job {
            ShaderJob::SyncAll { repos, data_dir, disabled_repos } => {
                self.repos = repos;
                self.repos_dir = join(data_dir.as_str(), RESHADE_SHADERS_DIR);
                self.disabled_repos = disabled_repos;
                self.rebuild = true;
            },
            ShaderJob::SyncOne { repo, data_dir } => {
                let mut v: Vec<ShaderRepo> = Vec::new();
                v.push(repo);
                self.repos = v;
                self.repos_dir = join(data_dir.as_str(), RESHADE_SHADERS_DIR);
                self.disabled_repos = Vec::new();
                self.rebuild = false;
            },
        }
        self.stage = ShaderStage::CreatingDir;
        ShaderStep { signals: Vec::new(), task: Some(ShaderTask::CreateDir(self.repos_dir.clone())) }
    }

    /// Reports syncing the repository at `i` and asks for its sync.
    fn sync_at(&mut self, signals: Vec<ShaderSignal>, i: usize) -> (step: ShaderStep)
        requires
            i < old(self).repos@.len(),
            old(self).rebuild || old(self).repos@.len() == 1,
        ensures
            final(self).wf(),
            final(self).stage == ShaderStage::Syncing(i),
            final(self).repos == old(self).repos,
            final(self).repos_dir == old(self).repos_dir,
            final(self).disabled_repos == old(self).disabled_repos,
            final(self).rebuild == old(self).rebuild,
            step.signals@.len() == signals@.len() + 1,
            step.signals@.drop_last() == signals@,
            starts_sync(step, old(self).repos@[i as int], old(self).repos_dir@),
    {
        let mut signals = signals;
        let repo = &self.repos[i];
        signals.push(ShaderSignal::Progress(ProgressEvent::SyncingRepo { name: repo.local_name.clone() }));
        self.stage = ShaderStage::Syncing(i);
        let task = ShaderTask::Sync { repo: clone_repo(repo), repos_dir: self.repos_dir.clone() };
        ShaderStep { signals, task: Some(task) }
    }

    /// Asks for the rebuild of the merged tree.
    fn rebuild_now(&mut self, signals: Vec<ShaderSignal>) -> (step: ShaderStep)
        requires
            old(self).rebuild,
        ensures
            final(self).wf(),
            final(self).stage == ShaderStage::Rebuilding,
            final(self).repos == old(self).repos,
            final(self).repos_dir == old(self).repos_dir,
            final(self).disabled_repos == old(self).disabled_repos,
            final(self).rebuild == old(self).rebuild,
            step.signals@ == signals@,
            step.task matches Some(ShaderTask::Rebuild { repos_dir, disabled_repos })
                && repos_dir@ == old(self).repos_dir@ && names(disabled_repos@) == names(old(self).disabled_repos@),
    {
        self.stage = ShaderStage::Rebuilding;
        let task = ShaderTask::Rebuild {
            repos_dir: self.repos_dir.clone(),
            disabled_repos: clone_strings(&self.disabled_repos),
        };
        ShaderStep { signals, task: Some(task) }
    }

    /// The outside work asked for last ended with `outcome`.
    ///
    /// - Directory: a failure stops the job with an error; otherwise the first
    ///   repository syncs (a full sync of no repository goes straight to the rebuild).
    /// - Sync: a failure is reported for that repository; a full sync goes on
    ///   with the next repository, then the rebuild; a single sync is complete
    ///   on success.
    /// - Rebuild: a failure stops the job with an error; otherwise it is complete.
    pub fn step_done(&mut self, outcome: Result<(), String>) -> (step: ShaderStep)
        requires
            old(self).wf(),
        ensures
            final(self).wf(),
            final(self).repos == old(self).repos,
            final(self).repos_dir == old(self).repos_dir,
            final(self).disabled_repos == old(self).disabled_repos,
            final(self).rebuild == old(self).rebuild,
            match old(self).stage {
                ShaderStage::Idle => final(self).stage == ShaderStage::Idle && step.signals@.len() == 0 && step.task is None,
                ShaderStage::CreatingDir => match outcome {
                    Err(e) => final(self).stage == ShaderStage::Idle && step.task is None && step.signals@.len() == 1
                        && (step.signals@[0] matches ShaderSignal::Error(m) && m@ == e@),
                    Ok(()) => if old(self).repos@.len() == 0 {
                        final(self).stage == ShaderStage::Rebuilding && step.signals@.len() == 0
                            && step.task matches Some(ShaderTask::Rebuild { .. })
                    } else {
                        final(self).stage == ShaderStage::Syncing(0) && step.signals@.len() == 1
                            && starts_sync(step, old(self).repos@[0], old(self).repos_dir@)
                    },
                },
                ShaderStage::Syncing(i) => {
                    let failed = outcome is Err;
                    let n = if failed { 1int } else { 0int };
                    &&& failed ==> (step.signals@[0] matches ShaderSignal::RepoError { repo_name, error }
                        && repo_name@ == old(self).repos@[i as int].local_name@
                        && (outcome matches Err(e) && error@ == e@))
                    &&& if i + 1 < old(self).repos@.len() {
                        final(self).stage == ShaderStage::Syncing((i + 1) as usize) && step.signals@.len() == n + 1
                            && starts_sync(step, old(self).repos@[i + 1], old(self).repos_dir@)
                    } else if old(self).rebuild {
                        final(self).stage == ShaderStage::Rebuilding && step.signals@.len() == n
                            && step.task matches Some(ShaderTask::Rebuild { .. })
                    } else {
                        final(self).stage == ShaderStage::Idle && step.task is None && step.signals@.len() == 1
                            && (!failed ==> step.signals@[0] is Complete)
                    }
                },
                ShaderStage::Rebuilding => final(self).stage == ShaderStage::Idle && step.task is None
                    && step.signals@.len() == 1 && match outcome {
                    Err(e) => step.signals@[0] matches ShaderSignal::Error(m) && m@ == e@,
                    Ok(()) => step.signals@[0] is Complete,
                },
            },
    {
        match self.stage {
            ShaderStage::Idle => ShaderStep { signals: Vec::new(), task: None },
            ShaderStage::CreatingDir => match outcome {
                Err(e) => {
                    self.stage = ShaderStage::Idle;
                    let mut signals: Vec<ShaderSignal> = Vec::new();
                    signals.push(ShaderSignal::Error(e));
                    ShaderStep { signals, task: None }
                },
                Ok(()) => {
                    if self.repos.len() == 0 {
                        self.rebuild_now(Vec::new())
                    } else {
                        self.sync_at(Vec::new(), 0)
                    }
                },
            },
            ShaderStage::Syncing(i) => {
                let mut signals: Vec<ShaderSignal> = Vec::new();
                let failed = outcome.is_err();
                match outcome {
                    Err(e) => {
                        signals.push(
                            ShaderSignal::RepoError { repo_name: self.repos[i].local_name.clone(), error: e },
                        );
                    },
                    Ok(()) => {},
                }
                let n = self.repos.len();
                if i + 1 < n {
                    let ghost sg = signals@;
                    let st = self.sync_at(signals, i + 1);
                    assert(sg.len() > 0 ==> st.signals@[0] == st.signals@.drop_last()[0]);
                    st
                } else if self.rebuild {
                    self.rebuild_now(signals)
                } else {
                    self.stage = ShaderStage::Idle;
                    if !failed {
                        signals.push(ShaderSignal::Complete);
                    }
                    ShaderStep { signals, task: None }
                }
            },
            ShaderStage::Rebuilding => {
                self.stage = ShaderStage::Idle;
                let mut signals: Vec<ShaderSignal> = Vec::new();
                match outcome {
                    Err(e) => signals.push(ShaderSignal::Error(e)),
                    Ok(()) => signals.push(ShaderSignal::Complete),
                }
                ShaderStep { signals, task: None }
            },
        }
    }
}

} // verus!
