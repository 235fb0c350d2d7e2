use gnome_iris::reshade::game::ExeArch;
use gnome_iris::ui::add_game_dialog::AddGameModel;
use gnome_iris::ui::add_shader_repo_dialog::{is_duplicate_url, AddShaderRepoModel};
use gnome_iris::ui::install_version_dialog::{is_valid_version, InstallVersionModel};
use gnome_iris::ui::pick_reshade_version_dialog::{display_title, PickVersionModel};

#[test]
fn is_duplicate_url_returns_true_for_matching_url() {
    let existing = vec!["https://github.com/crosire/reshade-shaders".to_owned()];
    assert!(is_duplicate_url("https://github.com/crosire/reshade-shaders", &existing));
}

#[test]
fn is_duplicate_url_returns_false_for_different_url() {
    let existing = vec!["https://github.com/crosire/reshade-shaders".to_owned()];
    assert!(!is_duplicate_url("https://github.com/someone/other-shaders", &existing));
}

#[test]
fn is_duplicate_url_trims_whitespace_before_comparing() {
    let existing = vec!["https://github.com/crosire/reshade-shaders".to_owned()];
    assert!(is_duplicate_url("  https://github.com/crosire/reshade-shaders  ", &existing));
}

#[test]
fn is_duplicate_url_returns_false_for_empty_list() {
    assert!(!is_duplicate_url("https://github.com/crosire/reshade-shaders", &[]));
}

#[test]
fn add_repo_confirm_builds_trimmed_repo() {
    let mut m = AddShaderRepoModel::new();
    m.update_existing_urls(vec!["https://x/a".to_owned()]);
    m.set_name("  my-shaders ".to_owned());
    m.set_url(" https://x/a ".to_owned());
    assert!(m.duplicate);
    assert!(m.confirm().is_none());
    m.set_url(" https://x/b ".to_owned());
    m.set_ref("  ".to_owned());
    assert!(m.confirm_enabled());
    let repo = m.confirm().unwrap();
    assert_eq!(repo.local_name, "my-shaders");
    assert_eq!(repo.url, "https://x/b");
    assert_eq!(repo.branch, None);
    assert!(!repo.enabled_by_default);
    assert!(m.name.is_empty() && m.url.is_empty());
    m.set_name("n".to_owned());
    m.set_url("u".to_owned());
    m.set_ref(" main ".to_owned());
    assert_eq!(m.confirm().unwrap().branch.as_deref(), Some("main"));
}

#[test]
fn version_text_must_be_three_numbers() {
    assert!(is_valid_version("6.7.3"));
    assert!(is_valid_version("10.0.12"));
    assert!(!is_valid_version("6.7"));
    assert!(!is_valid_version("6..3"));
    assert!(!is_valid_version("6.7.3.1"));
    assert!(!is_valid_version("6.7.x"));
    assert!(!is_valid_version(".6.7"));
    assert!(!is_valid_version(""));
}

#[test]
fn install_version_dialog_forms_key_and_refuses_duplicates() {
    let mut m = InstallVersionModel::new();
    m.update_installed_versions(vec!["v6.7.3".to_owned()]);
    m.set_version("6.7.3".to_owned());
    assert_eq!(m.version_key(), "v6.7.3");
    assert!(m.is_duplicate());
    assert_eq!(m.confirm(), None);
    m.set_addon(true);
    assert_eq!(m.version_key(), "v6.7.3-Addon");
    assert_eq!(m.confirm().as_deref(), Some("v6.7.3-Addon"));
    assert!(m.version_text.is_empty() && !m.addon);
}

#[test]
fn pick_dialog_titles_and_choice() {
    assert_eq!(display_title("v6.3.0", "Addon Support"), "6.3.0");
    assert_eq!(display_title("v6.3.0-Addon", "Addon Support"), "6.3.0 \u{2014} Addon Support");
    assert_eq!(display_title("6.3.0", "Addon Support"), "6.3.0");
    let mut m = PickVersionModel::new();
    let titles = m.open(&vec!["v6.3.0".to_owned(), "v6.3.0-Addon".to_owned()], "Addon");
    assert_eq!(titles, vec!["6.3.0", "6.3.0 \u{2014} Addon"]);
    assert!(!m.confirm_enabled());
    assert_eq!(m.confirm(), None);
    m.select_version("v6.3.0".to_owned());
    assert_eq!(m.confirm().as_deref(), Some("v6.3.0"));
    assert_eq!(m.confirm(), None);
}

#[test]
fn add_game_dialog_detects_duplicates_and_resets() {
    let mut m = AddGameModel::new(vec!["/games/hl2".to_owned()]);
    m.set_name("  Half-Life 2 ".to_owned());
    let subtitle = m.file_selected("/games/hl2/hl2.exe".to_owned(), true, Some(ExeArch::X86));
    assert_eq!(m.path.as_deref(), Some("/games/hl2"));
    assert_eq!(m.arch, ExeArch::X86);
    assert!(m.duplicate);
    assert_eq!(subtitle, "/games/hl2 \u{2014} already in library");
    assert!(!m.confirm_enabled());
    assert!(m.confirm().is_none());
    let subtitle = m.file_selected("/games/portal".to_owned(), false, None);
    assert_eq!(subtitle, "/games/portal");
    assert!(m.confirm_enabled());
    let (name, path, arch) = m.confirm().unwrap();
    assert_eq!((name.as_str(), path.as_str(), arch), ("Half-Life 2", "/games/portal", ExeArch::X86));
    assert!(m.path.is_none() && m.name.is_empty() && m.arch == ExeArch::X86_64);
    // a chosen file without a detectable header is taken as 64-bit
    m.file_selected("/games/x/game.exe".to_owned(), true, None);
    assert_eq!(m.arch, ExeArch::X86_64);
}
