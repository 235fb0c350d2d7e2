//! The install worker's decisions: the steps of installing, uninstalling and
//! downloading `ReShade`, and what it reports after each.
//!
//! The outside work (checking and writing files, downloading) is done by the
//! caller, which hands back how each step went.
use vstd::prelude::*;

use crate::reshade::d3dcompiler::{dll_path, spec_dll_file_name};
use crate::reshade::game::{spec_reshade_dll, DllOverride, ExeArch};
use crate::reshade::paths::{join, spec_join};
use crate::reshade::reshade::{names, spec_version_dir, spec_version_dir_key, version_dir, version_dir_key};
use crate::text::push_str;
use crate::ui::worker_types::ProgressEvent;

verus! {

/// A job for the install worker.
#[derive(Debug, Clone)]
pub enum InstallJob {
    /// Install a cached `ReShade` version into a game directory.
    Install {
        /// App data directory.
        data_dir: String,
        /// Game directory to install into.
        game_dir: String,
        /// Stable game ID.
        game_id: String,
        /// Repositories disabled for the game.
        disabled_repos: Vec<String>,
        /// DLL override to use.
        dll: DllOverride,
        /// Executable architecture.
        arch: ExeArch,
        /// The cached version key to install, e.g. `"6.3.0"` or `"6.3.0-Addon"`.
        version: String,
    },
    /// Remove `ReShade` from a game directory.
    Uninstall {
        /// App data directory.
        data_dir: String,
        /// Game directory to uninstall from.
        game_dir: String,
        /// Stable game ID.
        game_id: String,
        /// The DLL override in use.
        dll: DllOverride,
    },
    /// Download a `ReShade` version to the local cache.
    DownloadVersion {
        /// The version to download, e.g. `"6.1.0"`.
        version: String,
        /// The Addon Support variant.
        addon: bool,
    },
}

/// What the install worker reports.
#[derive(Debug, Clone)]
pub enum InstallSignal {
    /// A step began.
    Progress(ProgressEvent),
    /// The install finished.
    InstallComplete {
        /// The installed version key.
        version: String,
        /// DLL override installed.
        dll: DllOverride,
        /// Architecture targeted.
        arch: ExeArch,
    },
    /// The uninstall finished.
    UninstallComplete,
    /// The download finished.
    DownloadVersionComplete {
        /// The version key, e.g. `"6.1.0"` or `"6.1.0-Addon"`.
        version_key: String,
    },
    /// The download failed.
    DownloadVersionError(String),
    /// An install or uninstall failed.
    Error(String),
}

/// Outside work the caller performs.
#[derive(Debug, Clone)]
pub enum InstallTask {
    /// Answer whether this file exists (the cached `ReShade` DLL).
    CheckCached(String),
    /// Answer whether this file exists (the stored compiler DLL).
    CheckCompiler(String),
    /// Write the compiler DLL for `arch` into `data_dir` if it is missing.
    EnsureCompiler {
        /// App data directory.
        data_dir: String,
        /// Architecture.
        arch: ExeArch,
    },
    /// Make the install links (see `install_reshade`).
    InstallFiles {
        /// App data directory.
        data_dir: String,
        /// Game directory.
        game_dir: String,
        /// Stable game ID.
        game_id: String,
        /// Repositories disabled for the game.
        disabled_repos: Vec<String>,
        /// Version key.
        version: String,
        /// DLL override.
        dll: DllOverride,
        /// Architecture.
        arch: ExeArch,
    },
    /// Remove the install links and the per-game shader tree.
    RemoveFiles {
        /// App data directory.
        data_dir: String,
        /// Game directory.
        game_dir: String,
        /// Stable game ID.
        game_id: String,
        /// DLL override in use.
        dll: DllOverride,
    },
    /// Download and unpack this version.
    Download {
        /// The version.
        version: String,
        /// The Addon Support variant.
        addon: bool,
    },
}

/// Where the worker is in its job.
#[derive(Debug, Clone, Copy, PartialEq, Eq, Structural)]
pub enum InstallStage {
    /// No job.
    Idle,
    /// Waiting to learn whether the version is cached.
    CheckingCache,
    /// Waiting to learn whether the compiler DLL is stored.
    CheckingCompiler,
    /// Waiting for the compiler DLL.
    EnsuringCompiler,
    /// Waiting for the install links.
    Installing,
    /// Waiting for the uninstall.
    Uninstalling,
    /// Waiting for the download.
    Downloading,
}

/// One step: what to report, and the next outside work, if any.
#[derive(Debug, Clone)]
pub struct InstallStep {
    /// Reports, in order.
    pub signals: Vec<InstallSignal>,
    /// The next outside work; `None` when the job is over.
    pub task: Option<InstallTask>,
}

/// The install worker: the job in progress and where it stands.
#[derive(Debug)]
pub struct InstallWorker {
    /// The job, while one runs.
    pub job: Option<InstallJob>,
    /// Where the job stands.
    pub stage: InstallStage,
    /// The cache key of a download in progress.
    pub version_key: String,
}

/// The error reported when the version to install is not cached.
pub open spec fn spec_not_cached_message(version: Seq<char>) -> Seq<char> {
    "ReShade "@ + version + " is not cached locally \u{2014} download it in Preferences first"@
}

/// The error reported when the compiler DLL cannot be written.
pub const COMPILER_ERROR: &'static str = "Failed to install d3dcompiler_47.dll";

fn not_cached_message(version: &str) -> (r: String)
    ensures
        r@ == spec_not_cached_message(version@),
{
    let mut r = "ReShade ".to_owned();
    push_str(&mut r, version);
    push_str(&mut r, " is not cached locally \u{2014} download it in Preferences first");
    r
}

/// The stage each job waits in, and its shape, agree.
pub open spec fn stage_fits(stage: InstallStage, job: Option<InstallJob>) -> bool {
    match stage {
        InstallStage::Idle => true,
        InstallStage::CheckingCache | InstallStage::CheckingCompiler | InstallStage::EnsuringCompiler
        | InstallStage::Installing => job matches Some(InstallJob::Install { .. }),
        InstallStage::Uninstalling => job matches Some(InstallJob::Uninstall { .. }),
        InstallStage::Downloading => job matches Some(InstallJob::DownloadVersion { .. }),
    }
}

fn one(s: InstallSignal) -> (r: Vec<InstallSignal>)
    ensures
        r@ == seq![s],
{
    let mut v: Vec<InstallSignal> = Vec::new();
    v.push(s);
    v
}

impl InstallWorker {
    /// The worker's state holds together.
    pub open spec fn wf(&self) -> bool {
        stage_fits(self.stage, self.job)
    }

    /// An idle worker.
    pub fn new() -> (r: Self)
        ensures
            r.wf(),
            r.stage == InstallStage::Idle,
    {
        InstallWorker { job: None, stage: InstallStage::Idle, version_key: String::new() }
    }

    /// Starts a job.
    ///
    /// - Install: first, whether `data_dir/reshade/<version>/ReShade{32,64}.dll` exists.
    /// - Uninstall: the removal.
    /// - Download: reports the download of its cache key (`-Addon` added for the
    ///   Addon Support variant) and asks for it.
    pub fn start(&mut self, job: InstallJob) -> (step: InstallStep)
        ensures
            final(self).wf(),
            final(self).job == Some(job),
            match job {
                InstallJob::Install { data_dir, version, arch, .. } => final(self).stage == InstallStage::CheckingCache
                    && step.signals@.len() == 0 && (step.task matches Some(InstallTask::CheckCached(p))
                    && p@ == spec_join(spec_version_dir(data_dir@, version@), spec_reshade_dll(arch))),
                InstallJob::Uninstall { data_dir, game_dir, game_id, dll } => final(self).stage == InstallStage::Uninstalling
                    && step.signals@.len() == 0 && (step.task matches Some(InstallTask::RemoveFiles { data_dir: d, game_dir: g, game_id: i, dll: l })
                    && d@ == data_dir@ && g@ == game_dir@ && i@ == game_id@ && l == dll),
                InstallJob::DownloadVersion { version, addon } => final(self).stage == InstallStage::Downloading
                    && final(self).version_key@ == spec_version_dir_key(version@, addon)
                    && step.signals@.len() == 1 && (step.signals@[0] matches InstallSignal::Progress(ProgressEvent::Downloading { version: k })
                        && k@ == spec_version_dir_key(version@, addon))
                    && (step.task matches Some(InstallTask::Download { version: v, addon: a }) && v@ == version@ && a == addon),
            },
    {
        let step = match &job {
            InstallJob::Install { data_dir, version, arch, .. } => {
                let vdir = version_dir(data_dir.as_str(), version.as_str());
                let p = join(vdir.as_str(), arch.reshade_dll());
                self.stage = InstallStage::CheckingCache;
                InstallStep { signals: Vec::new(), task: Some(InstallTask::CheckCached(p)) }
            },
            InstallJob::Uninstall { data_dir, game_dir, game_id, dll } => {
                self.stage = InstallStage::Uninstalling;
                InstallStep {
                    signals: Vec::new(),
                    task: Some(InstallTask::RemoveFiles {
                        data_dir: data_dir.clone(),
                        game_dir: game_dir.clone(),
                        game_id: game_id.clone(),
                        dll: *dll,
                    }),
                }
            },
            InstallJob::DownloadVersion { version, addon } => {
                let key = version_dir_key(version.as_str(), *addon);
                self.version_key = key.clone();
                self.stage = InstallStage::Downloading;
                InstallStep {
                    signals: one(InstallSignal::Progress(ProgressEvent::Downloading { version: key })),
                    task: Some(InstallTask::Download { version: version.clone(), addon: *addon }),
                }
            },
        };
        self.job = Some(job);
        step
    }

    /// A check asked for last answered `found`.
    ///
    /// - Version cached? No: the install stops with the "not cached" error.
    ///   Yes: next, whether the compiler DLL is stored.
    /// - Compiler stored? No: its install is reported. Either way it is ensured next.
    pub fn answer(&mut self, found: bool) -> (step: InstallStep)
        requires
            old(self).wf(),
        ensures
            final(self).wf(),
            final(self).job == old(self).job,
            final(self).version_key == old(self).version_key,
            match (old(self).stage, old(self).job) {
                (InstallStage::CheckingCache, Some(InstallJob::Install { data_dir, version, arch, .. })) => if found {
                    final(self).stage == InstallStage::CheckingCompiler && step.signals@.len() == 0
                        && (step.task matches Some(InstallTask::CheckCompiler(p)) && p@ == spec_join(data_dir@, spec_dll_file_name(arch)))
                } else {
                    final(self).stage == InstallStage::Idle && step.task is None && step.signals@.len() == 1
                        && (step.signals@[0] matches InstallSignal::Error(m) && m@ == spec_not_cached_message(version@))
                },
                (InstallStage::CheckingCompiler, Some(InstallJob::Install { data_dir, arch, .. })) => {
                    &&& final(self).stage == InstallStage::EnsuringCompiler
                    &&& step.task matches Some(InstallTask::EnsureCompiler { data_dir: d, arch: a }) && d@ == data_dir@ && a == arch
                    &&& found ==> step.signals@.len() == 0
                    &&& !found ==> step.signals@.len() == 1 && step.signals@[0] matches InstallSignal::Progress(ProgressEvent::InstallingD3dcompiler)
                },
                _ => final(self).stage == old(self).stage && step.signals@.len() == 0 && step.task is None,
            },
    {
        let stage = self.stage;
        match (stage, &self.job) {
            (InstallStage::CheckingCache, Some(InstallJob::Install { data_dir, version, arch, .. })) => {
                if found {
                    let p = dll_path(data_dir.as_str(), *arch);
                    self.stage = InstallStage::CheckingCompiler;
                    InstallStep { signals: Vec::new(), task: Some(InstallTask::CheckCompiler(p)) }
                } else {
                    let m = not_cached_message(version.as_str());
                    self.stage = InstallStage::Idle;
                    InstallStep { signals: one(InstallSignal::Error(m)), task: None }
                }
            },
            (InstallStage::CheckingCompiler, Some(InstallJob::Install { data_dir, arch, .. })) => {
                let signals = if found {
                    Vec::new()
                } else {
                    one(InstallSignal::Progress(ProgressEvent::InstallingD3dcompiler))
                };
                let task = InstallTask::EnsureCompiler { data_dir: data_dir.clone(), arch: *arch };
                self.stage = InstallStage::EnsuringCompiler;
                InstallStep { signals, task: Some(task) }
            },
            _ => InstallStep { signals: Vec::new(), task: None },
        }
    }

    /// The outside work asked for last ended with `outcome`.
    ///
    /// - Compiler DLL: a failure stops the install with the compiler error;
    ///   otherwise the install is reported and the links are asked for.
    /// - Links: a failure stops with its message; otherwise the install is complete.
    /// - Uninstall: complete, or its error.
    /// - Download: complete with the cache key, or its error.
    pub fn step_done(&mut self, outcome: Result<(), String>) -> (step: InstallStep)
        requires
            old(self).wf(),
        ensures
            final(self).wf(),
            final(self).job == old(self).job,
            final(self).version_key == old(self).version_key,
            match (old(self).stage, old(self).job) {
                (InstallStage::EnsuringCompiler, Some(InstallJob::Install { data_dir, game_dir, game_id, disabled_repos, dll, arch, version })) => match outcome {
                    Err(_) => final(self).stage == InstallStage::Idle && step.task is None && step.signals@.len() == 1
                        && (step.signals@[0] matches InstallSignal::Error(m) && m@ == COMPILER_ERROR@),
                    Ok(()) => final(self).stage == InstallStage::Installing && step.signals@.len() == 1
                        && (step.signals@[0] matches InstallSignal::Progress(ProgressEvent::Installing))
                        && (step.task matches Some(InstallTask::InstallFiles { data_dir: d, game_dir: g, game_id: i, disabled_repos: r, version: v, dll: l, arch: a })
                        && d@ == data_dir@ && g@ == game_dir@ && i@ == game_id@ && v@ == version@ && l == dll && a == arch
                        && names(r@) == names(disabled_repos@)),
                },
                (InstallStage::Installing, Some(InstallJob::Install { dll, arch, version, .. })) => final(self).stage == InstallStage::Idle
                    && step.task is None && step.signals@.len() == 1 && match outcome {
                    Err(e) => step.signals@[0] matches InstallSignal::Error(m) && m@ == e@,
                    Ok(()) => step.signals@[0] matches InstallSignal::InstallComplete { version: v, dll: l, arch: a }
                        && v@ == version@ && l == dll && a == arch,
                },
                (InstallStage::Uninstalling, _) => final(self).stage == InstallStage::Idle && step.task is None
                    && step.signals@.len() == 1 && match outcome {
                    Err(e) => step.signals@[0] matches InstallSignal::Error(m) && m@ == e@,
                    Ok(()) => step.signals@[0] is UninstallComplete,
                },
                (InstallStage::Downloading, _) => final(self).stage == InstallStage::Idle && step.task is None
                    && step.signals@.len() == 1 && match outcome {
                    Err(e) => step.signals@[0] matches InstallSignal::DownloadVersionError(m) && m@ == e@,
                    Ok(()) => step.signals@[0] matches InstallSignal::DownloadVersionComplete { version_key }
                        && version_key@ == old(self).version_key@,
                },
                _ => final(self).stage == old(self).stage && step.signals@.len() == 0 && step.task is None,
            },
    {
        let stage = self.stage;
        match (stage, &self.job) {
            (InstallStage::EnsuringCompiler, Some(InstallJob::Install { data_dir, game_dir, game_id, disabled_repos, dll, arch, version })) => {
                match outcome {
                    Err(_) => {
                        self.stage = InstallStage::Idle;
                        InstallStep { signals: one(InstallSignal::Error(COMPILER_ERROR.to_owned())), task: None }
                    },
                    Ok(()) => {
                        let task = InstallTask::InstallFiles {
                            data_dir: data_dir.clone(),
                            game_dir: game_dir.clone(),
                            game_id: game_id.clone(),
                            disabled_repos: crate::reshade::config::clone_strings(disabled_repos),
                            version: version.clone(),
                            dll: *dll,
                            arch: *arch,
                        };
                        self.stage = InstallStage::Installing;
                        InstallStep { signals: one(InstallSignal::Progress(ProgressEvent::Installing)), task: Some(task) }
                    },
                }
            },
            (InstallStage::Installing, Some(InstallJob::Install { dll, arch, version, .. })) => {
                let s = match outcome {
                    Err(e) => InstallSignal::Error(e),
                    Ok(()) => InstallSignal::InstallComplete { version: version.clone(), dll: *dll, arch: *arch },
                };
                self.stage = InstallStage::Idle;
                InstallStep { signals: one(s), task: None }
            },
            (InstallStage::Uninstalling, _) => {
                let s = match outcome {
                    Err(e) => InstallSignal::Error(e),
                    Ok(()) => InstallSignal::UninstallComplete,
                };
                self.stage = InstallStage::Idle;
                InstallStep { signals: one(s), task: None }
            },
            (InstallStage::Downloading, _) => {
                let s = match outcome {
                    Err(e) => InstallSignal::DownloadVersionError(e),
                    Ok(()) => InstallSignal::DownloadVersionComplete { version_key: self.version_key.clone() },
                };
                self.stage = InstallStage::Idle;
                InstallStep { signals: one(s), task: None }
            },
            _ => InstallStep { signals: Vec::new(), task: None },
        }
    }
}

} // verus!
