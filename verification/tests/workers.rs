use gnome_iris::reshade::config::ShaderRepo;
use gnome_iris::reshade::game::{DllOverride, ExeArch};
use gnome_iris::ui::install_worker::{InstallJob, InstallSignal, InstallStage, InstallTask, InstallWorker};
use gnome_iris::ui::shader_worker::{ShaderJob, ShaderSignal, ShaderStage, ShaderTask, ShaderWorker};
use gnome_iris::ui::worker_types::ProgressEvent;

fn repo(name: &str) -> ShaderRepo {
    ShaderRepo { url: format!("https://x/{name}"), local_name: name.to_owned(), branch: None, enabled_by_default: true }
}

#[test]
fn install_complete_signal_carries_dll_and_arch() {
    let sig = InstallSignal::InstallComplete { version: "6.3.0".to_owned(), dll: DllOverride::Dxgi, arch: ExeArch::X86_64 };
    assert!(matches!(
        sig,
        InstallSignal::InstallComplete {
            dll: DllOverride::Dxgi,
            arch: ExeArch::X86_64,
            ..
        }
    ));
}

#[test]
fn progress_messages() {
    assert_eq!(ProgressEvent::Downloading { version: "6.3.0-Addon".to_owned() }.message(), "Downloading ReShade 6.3.0-Addon...");
    assert_eq!(ProgressEvent::InstallingD3dcompiler.message(), "Installing d3dcompiler_47.dll...");
    assert_eq!(ProgressEvent::Installing.message(), "Installing...");
    assert_eq!(ProgressEvent::SyncingRepo { name: "sweetfx".to_owned() }.message(), "Syncing sweetfx...");
}

#[test]
fn install_job_runs_through_its_steps() {
    let mut w = InstallWorker::new();
    let step = w.start(InstallJob::Install {
        data_dir: "/d".to_owned(),
        game_dir: "/g".to_owned(),
        game_id: "id".to_owned(),
        disabled_repos: vec![],
        dll: DllOverride::Dxgi,
        arch: ExeArch::X86_64,
        version: "6.3.0".to_owned(),
    });
    assert!(matches!(step.task, Some(InstallTask::CheckCached(ref p)) if p == "/d/reshade/6.3.0/ReShade64.dll"));
    let step = w.answer(true);
    assert!(matches!(step.task, Some(InstallTask::CheckCompiler(ref p)) if p == "/d/d3dcompiler_47.dll.64"));
    let step = w.answer(false);
    assert!(matches!(step.signals[0], InstallSignal::Progress(ProgressEvent::InstallingD3dcompiler)));
    assert!(matches!(step.task, Some(InstallTask::EnsureCompiler { .. })));
    let step = w.step_done(Ok(()));
    assert!(matches!(step.signals[0], InstallSignal::Progress(ProgressEvent::Installing)));
    assert!(matches!(step.task, Some(InstallTask::InstallFiles { .. })));
    let step = w.step_done(Ok(()));
    assert!(matches!(step.signals[0], InstallSignal::InstallComplete { dll: DllOverride::Dxgi, arch: ExeArch::X86_64, .. }));
    assert!(step.task.is_none());
    assert_eq!(w.stage, InstallStage::Idle);
}

#[test]
fn install_of_uncached_version_fails() {
    let mut w = InstallWorker::new();
    w.start(InstallJob::Install {
        data_dir: "/d".to_owned(),
        game_dir: "/g".to_owned(),
        game_id: "id".to_owned(),
        disabled_repos: vec![],
        dll: DllOverride::D3d9,
        arch: ExeArch::X86,
        version: "6.3.0".to_owned(),
    });
    let step = w.answer(false);
    match &step.signals[0] {
        InstallSignal::Error(m) => {
            assert_eq!(m, "ReShade 6.3.0 is not cached locally \u{2014} download it in Preferences first")
        },
        other => panic!("unexpected {other:?}"),
    }
}

#[test]
fn compiler_failure_stops_install() {
    let mut w = InstallWorker::new();
    w.start(InstallJob::Install {
        data_dir: "/d".to_owned(),
        game_dir: "/g".to_owned(),
        game_id: "id".to_owned(),
        disabled_repos: vec![],
        dll: DllOverride::D3d9,
        arch: ExeArch::X86,
        version: "6.3.0".to_owned(),
    });
    w.answer(true);
    let step = w.answer(true);
    assert!(step.signals.is_empty());
    let step = w.step_done(Err("disk full".to_owned()));
    assert!(matches!(&step.signals[0], InstallSignal::Error(m) if m == "Failed to install d3dcompiler_47.dll"));
}

#[test]
fn download_job_reports_its_key() {
    let mut w = InstallWorker::new();
    let step = w.start(InstallJob::DownloadVersion { version: "6.1.0".to_owned(), addon: true });
    assert!(matches!(&step.signals[0], InstallSignal::Progress(ProgressEvent::Downloading { version }) if version == "6.1.0-Addon"));
    let step = w.step_done(Ok(()));
    assert!(matches!(&step.signals[0], InstallSignal::DownloadVersionComplete { version_key } if version_key == "6.1.0-Addon"));
    w.start(InstallJob::DownloadVersion { version: "6.1.0".to_owned(), addon: false });
    let step = w.step_done(Err("timeout".to_owned()));
    assert!(matches!(&step.signals[0], InstallSignal::DownloadVersionError(e) if e == "timeout"));
}

#[test]
fn sync_all_goes_on_after_a_repo_error() {
    let mut w = ShaderWorker::new();
    let step = w.start(ShaderJob::SyncAll {
        repos: vec![repo("a"), repo("b")],
        data_dir: "/d".to_owned(),
        disabled_repos: vec!["b".to_owned()],
    });
    assert!(matches!(step.task, Some(ShaderTask::CreateDir(ref d)) if d == "/d/ReShade_shaders"));
    let step = w.step_done(Ok(()));
    assert!(matches!(&step.signals[0], ShaderSignal::Progress(ProgressEvent::SyncingRepo { name }) if name == "a"));
    let step = w.step_done(Err("network".to_owned()));
    assert!(matches!(&step.signals[0], ShaderSignal::RepoError { repo_name, error } if repo_name == "a" && error == "network"));
    assert!(matches!(&step.signals[1], ShaderSignal::Progress(ProgressEvent::SyncingRepo { name }) if name == "b"));
    let step = w.step_done(Ok(()));
    assert!(step.signals.is_empty());
    assert!(matches!(&step.task, Some(ShaderTask::Rebuild { disabled_repos, .. }) if disabled_repos == &vec!["b".to_owned()]));
    let step = w.step_done(Ok(()));
    assert!(matches!(step.signals[0], ShaderSignal::Complete));
    assert_eq!(w.stage, ShaderStage::Idle);
}

#[test]
fn sync_one_fails_on_directory_error() {
    let mut w = ShaderWorker::new();
    w.start(ShaderJob::SyncOne { repo: repo("a"), data_dir: "/d".to_owned() });
    let step = w.step_done(Err("denied".to_owned()));
    assert!(matches!(&step.signals[0], ShaderSignal::Error(e) if e == "denied"));
    w.start(ShaderJob::SyncOne { repo: repo("a"), data_dir: "/d".to_owned() });
    w.step_done(Ok(()));
    let step = w.step_done(Ok(()));
    assert!(matches!(step.signals[0], ShaderSignal::Complete));
}
