use gnome_iris::reshade::app_state::AppState;
use gnome_iris::reshade::cache::UpdateCache;
use gnome_iris::reshade::catalog::CatalogEntry;
use gnome_iris::reshade::config::{GlobalConfig, ShaderRepo};
use gnome_iris::reshade::game::{DllOverride, ExeArch, Game, GameSource, InstallStatus};
use gnome_iris::ui::install_worker::InstallJob;
use gnome_iris::ui::window::startup::{
    custom_repos, downloaded_repos, first_under, latest_after_check, versions_in_use,
};
use gnome_iris::ui::window::{CatalogCommand, DetailCommand, ListCommand, PrefsCommand, Toast, WindowAction, WindowModel};

fn entry(name: &str) -> CatalogEntry {
    CatalogEntry {
        name: name.to_owned(),
        description: String::new(),
        local_name: name.to_owned(),
        url: format!("https://x/{name}"),
        branch: None,
    }
}

fn repo(name: &str) -> ShaderRepo {
    ShaderRepo { url: format!("https://y/{name}"), local_name: name.to_owned(), branch: None, enabled_by_default: false }
}

fn state(games: Vec<Game>) -> AppState {
    AppState { games, reshade_version: None, config: GlobalConfig::default(), data_dir: "/d".to_owned() }
}

fn window(games: Vec<Game>, steam: Vec<Game>) -> (WindowModel, Vec<(String, String)>) {
    let saved = games.clone();
    WindowModel::init(state(saved), games, steam, vec!["6.7.3".to_owned()], vec![entry("known")])
}

#[test]
fn startup_adds_only_new_steam_games() {
    let hl2 = Game::new("HL2".to_owned(), "/games/hl2".to_owned(), GameSource::Manual);
    let portal = Game::new("Portal".to_owned(), "/s/common/Portal".to_owned(), GameSource::Steam { app_id: 400 });
    let again = Game::new("HL2 (Steam)".to_owned(), "/games/hl2".to_owned(), GameSource::Steam { app_id: 220 });
    let (w, added) = window(vec![hl2], vec![portal.clone(), again, portal]);
    assert_eq!(w.games.len(), 2);
    assert_eq!(w.games[1].name, "Portal");
    assert_eq!(added.len(), 1);
    assert_eq!(added[0].1, "/s/common/Portal");
}

#[test]
fn selecting_a_game_fills_the_detail_pane() {
    let hl2 = Game::new("HL2".to_owned(), "/games/hl2".to_owned(), GameSource::Manual);
    let id = hl2.id.clone();
    let (mut w, _) = window(vec![hl2], vec![]);
    assert!(w.game_selected("nope".to_owned(), &vec![]).is_empty());
    let acts = w.game_selected(id.clone(), &vec!["known".to_owned(), "game-abc".to_owned()]);
    assert_eq!(acts.len(), 4);
    assert!(matches!(&acts[0], WindowAction::Detail(DetailCommand::SetGame(g)) if g.name == "HL2"));
    assert!(matches!(&acts[1], WindowAction::Detail(DetailCommand::SetShaderData { repos, .. }) if repos.len() == 1 && repos[0].local_name == "known"));
    assert!(matches!(acts[3], WindowAction::ShowDetail));
    assert_eq!(w.current_game_id.as_deref(), Some(id.as_str()));
}

#[test]
fn install_complete_marks_both_lists_and_saves() {
    let hl2 = Game::new("HL2".to_owned(), "/games/hl2".to_owned(), GameSource::Manual);
    let id = hl2.id.clone();
    let (mut w, _) = window(vec![hl2], vec![]);
    w.game_selected(id.clone(), &vec![]);
    let acts = w.install("nope", DllOverride::Dxgi, ExeArch::X86_64, "6.7.3".to_owned(), "/d".to_owned());
    assert!(acts.is_empty());
    let acts = w.install(&id, DllOverride::Dxgi, ExeArch::X86_64, "6.7.3".to_owned(), "/d".to_owned());
    assert!(matches!(&acts[0], WindowAction::Install(InstallJob::Install { game_dir, .. }) if game_dir == "/games/hl2"));
    let acts = w.install_complete("6.7.3".to_owned(), DllOverride::Dxgi, ExeArch::X86_64);
    assert_eq!(acts.len(), 4);
    assert!(matches!(acts[2], WindowAction::Save));
    assert!(matches!(&acts[3], WindowAction::List(ListCommand::SetGameStatus { installed: true, version: Some(v), .. }) if v == "6.7.3"));
    assert!(w.games[0].status.is_installed());
    assert!(w.app_state.games[0].status.is_installed());
    let acts = w.uninstall_complete();
    assert!(matches!(&acts[3], WindowAction::List(ListCommand::SetGameStatus { installed: false, version: None, .. })));
    assert!(!w.games[0].status.is_installed());
}

#[test]
fn toggling_a_repo_rebuilds_the_game_tree() {
    let hl2 = Game::new("HL2".to_owned(), "/games/hl2".to_owned(), GameSource::Manual);
    let id = hl2.id.clone();
    let (mut w, _) = window(vec![hl2], vec![]);
    let acts = w.shader_toggled(&id, "sweetfx", false);
    assert!(matches!(acts[0], WindowAction::Save));
    assert!(matches!(&acts[1], WindowAction::RebuildGameShaders { disabled_repos, .. } if disabled_repos == &vec!["sweetfx".to_owned()]));
    w.shader_toggled(&id, "sweetfx", true);
    assert!(w.games[0].shader_overrides.disabled_repos.is_empty());
    assert!(w.shader_toggled("nope", "sweetfx", true).is_empty());
}

#[test]
fn adding_and_removing_games() {
    let (mut w, _) = window(vec![], vec![]);
    let acts = w.game_added("HL2".to_owned(), "/games/hl2".to_owned(), ExeArch::X86);
    assert_eq!(acts.len(), 3);
    assert!(matches!(&acts[2], WindowAction::UpdateExistingPaths(p) if p == &vec!["/games/hl2".to_owned()]));
    assert_eq!(w.games[0].preferred_arch, Some(ExeArch::X86));
    w.latest_version_fetched("6.7.3".to_owned());
    let acts = w.game_added("Portal".to_owned(), "/games/portal".to_owned(), ExeArch::X86_64);
    assert_eq!(acts.len(), 4);
    let id = w.games[0].id.clone();
    let acts = w.game_remove(id);
    assert!(matches!(acts[0], WindowAction::Save));
    assert_eq!(w.games.len(), 1);
    assert_eq!(w.app_state.games.len(), 1);
}

#[test]
fn repo_added_refuses_known_and_duplicate_repos() {
    let (mut w, _) = window(vec![], vec![]);
    let acts = w.repo_added(ShaderRepo { url: "https://x/known".to_owned(), ..repo("other") });
    assert!(matches!(acts[0], WindowAction::Toast(Toast::RepoInCatalog)));
    let acts = w.repo_added(ShaderRepo { local_name: "reshade-shaders".to_owned(), ..repo("z") });
    assert!(matches!(acts[0], WindowAction::Toast(Toast::RepoDuplicate)));
    let acts = w.repo_added(repo("mine"));
    assert!(matches!(&acts[1], WindowAction::Catalog(CatalogCommand::AddCustomRepo(r)) if r.local_name == "mine"));
    assert_eq!(w.app_state.config.shader_repos.len(), 6);
    let acts = w.remove_custom_repo_requested(repo("mine"));
    assert!(matches!(&acts[1], WindowAction::RemoveRepoDir(d) if d == "/d/ReShade_shaders/mine"));
    assert_eq!(w.app_state.config.shader_repos.len(), 5);
}

#[test]
fn versions_download_and_removal() {
    let (mut w, _) = window(vec![], vec![]);
    let acts = w.version_download_requested("6.8.0-Addon");
    assert!(matches!(&acts[0], WindowAction::Install(InstallJob::DownloadVersion { version, addon: true }) if version == "6.8.0"));
    let acts = w.version_download_complete("6.8.0-Addon".to_owned());
    assert_eq!(acts.len(), 1);
    assert_eq!(w.installed_versions, vec!["6.7.3", "6.8.0-Addon"]);
    let acts = w.version_remove_requested("6.7.3");
    assert!(matches!(&acts[0], WindowAction::RemoveVersionDir(d) if d == "/d/reshade/6.7.3"));
    let acts = w.version_removed("6.7.3".to_owned(), Err("busy".to_owned()));
    assert!(matches!(&acts[0], WindowAction::Prefs(PrefsCommand::VersionOpError(e)) if e == "busy"));
    assert_eq!(w.installed_versions.len(), 2);
    let acts = w.version_removed("6.7.3".to_owned(), Ok(()));
    assert!(matches!(&acts[0], WindowAction::ForgetVersion(v) if v == "6.7.3"));
    assert_eq!(w.installed_versions, vec!["6.8.0-Addon"]);
    let acts = w.version_download_error("timeout");
    assert!(matches!(&acts[1], WindowAction::Toast(Toast::Message(m)) if m == "Download failed: timeout"));
}

#[test]
fn latest_version_updates_installed_cards() {
    let mut p = Game::new("Portal".to_owned(), "/p".to_owned(), GameSource::Steam { app_id: 400 });
    p.status = InstallStatus::Installed { dll: DllOverride::Dxgi, arch: ExeArch::X86_64, version: Some("6.1.0".to_owned()) };
    let hl2 = Game::new("HL2".to_owned(), "/h".to_owned(), GameSource::Manual);
    let (mut w, _) = window(vec![hl2, p], vec![]);
    let acts = w.latest_version_fetched("6.7.3".to_owned());
    assert_eq!(acts.len(), 2);
    assert!(matches!(&acts[1], WindowAction::List(ListCommand::SetGameStatus { version: Some(v), latest_version: Some(l), .. }) if v == "6.1.0" && l == "6.7.3"));
}

#[test]
fn startup_helpers() {
    let known = vec![entry("known")];
    let config = vec![repo("known"), repo("mine"), repo("game-x")];
    let custom = custom_repos(&known, &config);
    assert_eq!(custom.len(), 2);
    assert_eq!(custom[0].local_name, "mine");
    let shown = downloaded_repos(&known, &config, &vec!["mine".to_owned(), "game-x".to_owned(), "known".to_owned()]);
    let names: Vec<&str> = shown.iter().map(|r| r.local_name.as_str()).collect();
    assert_eq!(names, vec!["known", "mine"]);
    assert_eq!(first_under("/d/reshade/6.7.3/ReShade64.dll", "/d/reshade").as_deref(), Some("6.7.3"));
    assert_eq!(first_under("/d/reshade", "/d/reshade"), None);
    assert_eq!(first_under("/e/reshade/6.7.3", "/d/reshade"), None);
}

#[test]
fn versions_in_use_follow_links() {
    let mut a = Game::new("A".to_owned(), "/games/a".to_owned(), GameSource::Manual);
    a.status = InstallStatus::Installed { dll: DllOverride::Dxgi, arch: ExeArch::X86_64, version: None };
    let mut b = Game::new("B".to_owned(), "/games/b".to_owned(), GameSource::Manual);
    b.status = InstallStatus::Installed { dll: DllOverride::Dxgi, arch: ExeArch::X86_64, version: None };
    let c = Game::new("C".to_owned(), "/games/c".to_owned(), GameSource::Manual);
    let targets = vec![
        Some("/d/reshade/6.7.3/ReShade64.dll".to_owned()),
        Some("/d/reshade/6.7.3/ReShade64.dll".to_owned()),
        Some("/d/reshade/6.1.0/ReShade64.dll".to_owned()),
    ];
    assert_eq!(versions_in_use(&vec![a, b, c], "/d", &targets), vec!["6.7.3"]);
}

#[test]
fn startup_check_records_fetched_version() {
    let mut cache = UpdateCache::new("/d".to_owned());
    cache.write_version("6.1.0");
    assert_eq!(latest_after_check(&mut cache, 100, None).as_deref(), Some("6.1.0"));
    assert_eq!(latest_after_check(&mut cache, 100, Some(Err("offline".to_owned()))).as_deref(), Some("6.1.0"));
    assert!(cache.needs_update(100, 4));
    assert_eq!(latest_after_check(&mut cache, 100, Some(Ok("6.7.3".to_owned()))).as_deref(), Some("6.7.3"));
    assert_eq!(cache.read_version().as_deref(), Some("6.7.3"));
    assert!(!cache.needs_update(100, 4));
}
