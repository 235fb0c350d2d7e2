use gnome_iris::reshade::app_state::{load_reshade_version, AppState};
use gnome_iris::reshade::cache::VersionState;
use gnome_iris::reshade::config::GlobalConfig;
use gnome_iris::reshade::game::{Game, GameSource};
use gnome_iris::reshade::services::{DefaultGameRepository, DefaultReShadeProvider};

#[test]
fn missing_files_reload_as_defaults() {
    // Nothing could be read from an empty directory.
    let state = AppState::load("/tmp/empty".to_owned(), None, None, None);
    assert!(state.games.is_empty(), "games should default to empty");
    assert!(!state.config.shader_repos.is_empty(), "config should default to built-in repos");
    assert!(state.reshade_version.is_none());
}

#[test]
fn load_keeps_what_was_read() {
    let vs = VersionState { latest: Some("6.7.3".to_owned()), last_checked: None, installed: vec![] };
    let mut config = GlobalConfig::default();
    config.update_interval_hours = 12;
    let games = vec![Game::new("Portal".to_owned(), "/games/portal".to_owned(), GameSource::Steam { app_id: 400 })];
    let state = AppState::load("/d".to_owned(), Some(config), Some(games), Some(vs));
    assert_eq!(state.config.update_interval_hours, 12);
    assert_eq!(state.games.len(), 1);
    assert_eq!(state.reshade_version.as_deref(), Some("6.7.3"));
    assert_eq!(state.config_path(), "/d/config.json");
    assert_eq!(state.games_path(), "/d/games.json");
    assert_eq!(load_reshade_version(None), None);
}

#[test]
fn games_reflects_in_memory_list() {
    let state = AppState {
        games: vec![
            Game::new("Half-Life 2".into(), "/games/hl2".into(), GameSource::Manual),
            Game::new("Portal".into(), "/games/portal".into(), GameSource::Manual),
        ],
        reshade_version: None,
        config: GlobalConfig::default(),
        data_dir: "/tmp/iris".to_owned(),
    };

    let repo = DefaultGameRepository::new(state);

    assert_eq!(repo.games().len(), 2);
    assert_eq!(repo.games()[0].name, "Half-Life 2");
    assert_eq!(repo.games()[1].name, "Portal");
}

#[test]
fn download_plan_for_addon() {
    let p = DefaultReShadeProvider::new("/d".to_owned());
    let plan = p.download_plan("6.7.3", true);
    assert_eq!(plan.dir_key, "6.7.3-Addon");
    assert_eq!(plan.version_dir, "/d/reshade/6.7.3-Addon");
    assert_eq!(plan.marker, "/d/reshade/6.7.3-Addon/ReShade64.dll");
    assert_eq!(plan.url, "https://reshade.me/downloads/ReShade_Setup_6.7.3_Addon.exe");
}
