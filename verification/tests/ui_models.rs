use gnome_iris::reshade::catalog::CatalogEntry;
use gnome_iris::reshade::config::{GlobalConfig, ShaderOverrides, ShaderRepo};
use gnome_iris::reshade::game::{DllOverride, ExeArch, Game, GameSource, InstallStatus};
use gnome_iris::ui::game_detail::{DetailSignal, GameDetailModel};
use gnome_iris::ui::game_shader_overrides::{Controls as OverrideControls, GameShaderOverrides};
use gnome_iris::ui::game_list::{GameListModel, ListSection};
use gnome_iris::ui::preferences::{display_title, status_for, PreferencesModel, PrefsAction, PrefsControl, VersionStatus};
use gnome_iris::ui::shader_catalog::{CatalogAction, CatalogControl, CatalogSignal, ShaderCatalogModel};

fn entry(name: &str) -> CatalogEntry {
    CatalogEntry {
        name: name.to_uppercase(),
        description: String::new(),
        local_name: name.to_owned(),
        url: format!("https://x/{name}"),
        branch: None,
    }
}

fn repo(name: &str) -> ShaderRepo {
    ShaderRepo { url: format!("https://y/{name}"), local_name: name.to_owned(), branch: None, enabled_by_default: false }
}

fn requested(acts: &[CatalogAction]) -> Vec<String> {
    acts.iter()
        .filter_map(|a| match a {
            CatalogAction::Output(CatalogSignal::DownloadRequested(r)) => Some(r.local_name.clone()),
            _ => None,
        })
        .collect()
}

#[test]
fn catalog_marks_repos_on_disk() {
    let on_disk = vec!["b".to_owned(), "mine".to_owned()];
    let (m, acts) = ShaderCatalogModel::init(vec![entry("a"), entry("b")], vec![repo("mine")], &on_disk);
    assert_eq!(acts.len(), 3);
    assert!(matches!(acts[0], CatalogAction::AddKnownRow { index: 0, installed: false }));
    assert!(matches!(acts[1], CatalogAction::AddKnownRow { index: 1, installed: true }));
    assert!(matches!(&acts[2], CatalogAction::AddCustomRow { repo, installed: true } if repo.local_name == "mine"));
    assert_eq!(m.installed, vec!["b", "mine"]);
}

#[test]
fn catalog_downloads_one_at_a_time_in_order() {
    let (mut m, _) = ShaderCatalogModel::init(vec![entry("a"), entry("b"), entry("c")], vec![], &vec!["b".to_owned()]);
    let acts = m.download_all();
    assert_eq!(requested(&acts), vec!["a"]);
    assert_eq!(m.queue.len(), 1);
    // another request while a download runs is ignored
    assert!(m.download(repo("x")).is_empty());
    assert!(m.download_all().is_empty());
    let acts = m.sync_finished(true);
    assert!(matches!(&acts[0], CatalogAction::FinishSync { name, success: true } if name == "a"));
    assert_eq!(requested(&acts), vec!["c"]);
    let acts = m.sync_finished(false);
    assert!(matches!(&acts[0], CatalogAction::FinishSync { name, success: false } if name == "c"));
    assert_eq!(acts.len(), 1);
    assert_eq!(m.syncing, None);
    assert_eq!(m.installed, vec!["b", "a"]);
    // nothing in flight: a finish report changes nothing
    assert!(m.sync_finished(true).is_empty());
}

#[test]
fn catalog_custom_rows() {
    let (mut m, _) = ShaderCatalogModel::init(vec![], vec![], &vec![]);
    let acts = m.add_custom_repo(repo("mine"));
    assert!(matches!(&acts[0], CatalogAction::AddCustomRow { installed: false, .. }));
    let acts = m.download(repo("mine"));
    assert_eq!(requested(&acts), vec!["mine"]);
    m.sync_finished(true);
    let acts = m.remove_custom_repo(repo("mine"));
    assert!(matches!(&acts[0], CatalogAction::RemoveCustomRow(n) if n == "mine"));
    assert!(m.installed.is_empty() && m.custom_rows.is_empty());
    assert!(m.remove_custom_repo(repo("mine")).is_empty());
}

#[test]
fn preferences_rows_and_placeholder() {
    let (mut p, acts) = PreferencesModel::init(GlobalConfig::default(), vec![], None, vec![]);
    assert!(matches!(acts[0], PrefsAction::ShowPlaceholder));
    assert!(p.placeholder);
    let acts = p.set_latest_version("6.7.3".to_owned());
    assert!(matches!(acts[0], PrefsAction::HidePlaceholder));
    assert!(matches!(&acts[1], PrefsAction::AddDownloadRow { key, addon: false } if key == "6.7.3"));
    assert!(matches!(&acts[2], PrefsAction::AddDownloadRow { key, addon: true } if key == "6.7.3-Addon"));
    let acts = p.install_latest_version("6.7.3-Addon".to_owned());
    assert!(matches!(acts[0], PrefsAction::BeginDownload { addon: true }));
    // in flight: ignored
    assert!(p.install_latest_version("6.7.3-Addon".to_owned()).is_empty());
    p.version_download_complete("6.7.3-Addon".to_owned());
    assert!(!p.has_addon_download_row && p.has_download_row);
    assert_eq!(p.version_rows, vec!["6.7.3-Addon"]);
    assert!(p.active_ops.is_empty());
    let acts = p.remove_version("6.7.3-Addon".to_owned());
    assert!(matches!(&acts[1], PrefsAction::RemoveVersionRequested(k) if k == "6.7.3-Addon"));
    let acts = p.version_remove_complete("6.7.3-Addon".to_owned());
    assert!(matches!(&acts[0], PrefsAction::FinishRemoval(k) if k == "6.7.3-Addon"));
    assert!(p.has_addon_download_row);
    assert!(p.version_rows.is_empty());
}

#[test]
fn preferences_labels() {
    assert_eq!(status_for("6.7.3", &Some("6.7.3".to_owned()), true), VersionStatus::CurrentLatest);
    assert_eq!(status_for("6.7.3", &Some("6.7.3".to_owned()), false), VersionStatus::Current);
    assert_eq!(status_for("6.7.3", &None, true), VersionStatus::Latest);
    assert_eq!(status_for("6.7.3", &Some("6.0.0".to_owned()), false), VersionStatus::Plain);
    assert_eq!(display_title("6.7.3-Addon", "Addon Support"), "6.7.3 \u{2014} Addon Support");
    assert_eq!(display_title("6.7.3", "Addon Support"), "6.7.3");
}

#[test]
fn preferences_config_changes_report_once() {
    let (mut p, _) = PreferencesModel::init(GlobalConfig::default(), vec!["6.7.3".to_owned()], None, vec![]);
    assert!(p.merge_shaders_changed(true).is_empty());
    assert_eq!(p.merge_shaders_changed(false).len(), 1);
    assert_eq!(p.update_interval_changed(8).len(), 1);
    assert!(p.update_interval_changed(8).is_empty());
    assert_eq!(p.config.update_interval_hours, 8);
}

fn installed_game() -> Game {
    let mut g = Game::new("Portal".to_owned(), "/games/portal".to_owned(), GameSource::Steam { app_id: 400 });
    g.status = InstallStatus::Installed { dll: DllOverride::D3d9, arch: ExeArch::X86, version: None };
    g
}

#[test]
fn detail_subtitle_and_buttons() {
    let mut d = GameDetailModel::new();
    assert_eq!(d.metadata_subtitle("Not installed"), "");
    let g = Game::new("HL2".to_owned(), "/games/hl2".to_owned(), GameSource::Manual);
    d.set_game(g);
    assert_eq!(d.metadata_subtitle("Not installed"), "Not installed");
    assert!(d.install_visible() && !d.install_sensitive() && d.no_versions_banner());
    d.mark_installed("6.7.3".to_owned(), DllOverride::Dxgi, ExeArch::X86_64);
    assert_eq!(d.metadata_subtitle("Not installed"), "x86_64 \u{00B7} dxgi.dll \u{00B7} ReShade 6.7.3");
    assert!(d.uninstall_visible());
    d.set_game(installed_game());
    assert_eq!(d.metadata_subtitle("-"), "x86 \u{00B7} d3d9.dll \u{00B7} ReShade ?");
}

#[test]
fn detail_install_choice() {
    let mut d = GameDetailModel::new();
    assert!(d.version_chosen("v6.3.0".to_owned()).is_none());
    let mut g = Game::new("HL2".to_owned(), "/games/hl2".to_owned(), GameSource::Manual);
    g.preferred_arch = Some(ExeArch::X86);
    d.set_game(g);
    assert!(d.uninstall_requested().is_none());
    match d.version_chosen("v6.3.0".to_owned()) {
        Some(DetailSignal::Install { dll, arch, version, .. }) => {
            assert_eq!((dll, arch, version.as_str()), (DllOverride::Dxgi, ExeArch::X86, "v6.3.0"));
        },
        other => panic!("unexpected {other:?}"),
    }
    d.set_game(installed_game());
    assert!(matches!(d.version_chosen("v6.3.0".to_owned()), Some(DetailSignal::Install { dll: DllOverride::D3d9, arch: ExeArch::X86, .. })));
    assert!(matches!(d.uninstall_requested(), Some(DetailSignal::Uninstall { dll: DllOverride::D3d9, .. })));
}

#[test]
fn detail_shader_rows_follow_overrides() {
    let mut d = GameDetailModel::new();
    assert!(d.set_shader_data(vec![repo("a")], ShaderOverrides::default()).is_empty());
    d.set_game(Game::new("HL2".to_owned(), "/games/hl2".to_owned(), GameSource::Manual));
    let rows = d.set_shader_data(vec![repo("a"), repo("b")], ShaderOverrides { disabled_repos: vec!["b".to_owned()] });
    assert_eq!(rows.len(), 2);
    assert!(rows[0].active && !rows[1].active);
    assert_eq!(rows[1].name, "b");
}

#[test]
fn game_list_sections() {
    let manual = Game::new("HL2".to_owned(), "/games/hl2".to_owned(), GameSource::Manual);
    let id = manual.id.clone();
    let (mut l, rows) = GameListModel::init(vec![installed_game(), manual]);
    assert_eq!(rows.len(), 2);
    assert!(rows[0].installed && !rows[0].manual);
    assert!(!rows[1].installed && rows[1].manual);
    assert!(l.has_manual);
    assert_eq!(l.set_game_status(&id), Some(ListSection::Manual));
    assert_eq!(l.remove_game(id.clone()), Some(ListSection::Manual));
    assert!(!l.has_manual);
    assert_eq!(l.games.len(), 1);
    assert_eq!(l.set_game_status(&id), None);
}

#[test]
fn override_panel_takes_new_data() {
    let config = GlobalConfig { shader_repos: vec![repo("a")], merge_shaders: false, update_interval_hours: 24 };
    let mut panel = GameShaderOverrides::init(config, ShaderOverrides::default());
    assert!(panel.overrides.disabled_repos.is_empty());
    let newer = GlobalConfig { shader_repos: vec![repo("a"), repo("b")], merge_shaders: true, update_interval_hours: 6 };
    panel.update(OverrideControls::SetData(newer, ShaderOverrides { disabled_repos: vec!["b".to_owned()] }));
    assert_eq!(panel.config.shader_repos.len(), 2);
    assert!(panel.config.merge_shaders);
    assert_eq!(panel.config.update_interval_hours, 6);
    assert_eq!(panel.overrides.disabled_repos, vec!["b".to_owned()]);
}

#[test]
fn preferences_latest_version_relabels_installed_rows() {
    let (mut p, _) = PreferencesModel::init(GlobalConfig::default(), vec!["6.7.3".to_owned()], Some("6.7.3".to_owned()), vec![]);
    let acts = p.update(PrefsControl::SetLatestVersion("6.7.3".to_owned()));
    assert_eq!(acts.len(), 2);
    assert!(matches!(&acts[0], PrefsAction::SetRowStatus { key, status: VersionStatus::CurrentLatest } if key == "6.7.3"));
    assert!(matches!(&acts[1], PrefsAction::AddDownloadRow { key, addon: true } if key == "6.7.3-Addon"));
    assert!(!p.has_download_row && p.has_addon_download_row);
}

#[test]
fn preferences_key_in_flight_until_its_completion() {
    let (mut p, _) = PreferencesModel::init(GlobalConfig::default(), vec!["6.0.0".to_owned()], None, vec![]);
    let acts = p.update(PrefsControl::InstallLatestVersion("6.7.3".to_owned()));
    assert!(matches!(&acts[1], PrefsAction::InstallVersionRequested(k) if k == "6.7.3"));
    assert!(p.update(PrefsControl::InstallLatestVersion("6.7.3".to_owned())).is_empty());
    p.update(PrefsControl::RemoveVersion("6.0.0".to_owned()));
    assert_eq!(p.active_ops, vec!["6.7.3", "6.0.0"]);
    let acts = p.update(PrefsControl::VersionRemoveComplete("6.0.0".to_owned()));
    assert_eq!(acts.len(), 3);
    assert!(matches!(&acts[1], PrefsAction::RemoveInstalledRow(k) if k == "6.0.0"));
    assert!(matches!(acts[2], PrefsAction::ShowPlaceholder));
    assert_eq!(p.active_ops, vec!["6.7.3"]);
    p.update(PrefsControl::VersionOpError("offline".to_owned()));
    assert!(p.active_ops.is_empty());
}

#[test]
fn catalog_ignores_downloads_while_busy() {
    let (mut m, _) = ShaderCatalogModel::init(vec![entry("a"), entry("b")], vec![], &vec![]);
    let acts = m.update(CatalogControl::DownloadRepo(0));
    assert_eq!(requested(&acts), vec!["a"]);
    assert!(m.update(CatalogControl::DownloadRepo(1)).is_empty());
    assert!(m.update(CatalogControl::DownloadAll).is_empty());
    assert!(m.update(CatalogControl::DownloadCustomRepo(repo("x"))).is_empty());
    assert!(m.update(CatalogControl::SyncProgress("50%".to_owned())).is_empty());
    assert_eq!(m.syncing.as_deref(), Some("a"));
    let acts = m.update(CatalogControl::SyncError("offline".to_owned()));
    assert!(matches!(&acts[0], CatalogAction::FinishSync { name, success: false } if name == "a"));
    assert_eq!(m.syncing, None);
}

#[test]
fn preferences_toggle_keeps_rest_of_config() {
    let (mut p, _) = PreferencesModel::init(GlobalConfig::default(), vec![], None, vec![]);
    let repos_before = p.config.shader_repos.len();
    let acts = p.update(PrefsControl::MergeShadersChanged(false));
    assert_eq!(acts.len(), 1);
    assert!(matches!(&acts[0], PrefsAction::ConfigChanged(c)
        if !c.merge_shaders && c.update_interval_hours == 4 && c.shader_repos.len() == repos_before));
    assert!(p.update(PrefsControl::UpdateIntervalChanged(4)).is_empty());
    assert_eq!(p.config.shader_repos.len(), repos_before);
    assert!(!p.config.merge_shaders);
}
