use gnome_iris::reshade::config::{default_shader_repos, GlobalConfig, ShaderOverrides};

#[test]
fn default_shader_repos_are_not_empty() {
    let config = GlobalConfig::default();
    assert!(!config.shader_repos.is_empty());
}

#[test]
fn default_config_values() {
    let config = GlobalConfig::default();
    assert!(config.merge_shaders);
    assert_eq!(config.update_interval_hours, 4);
    assert_eq!(config.shader_repos.len(), 5);
    assert_eq!(config.shader_repos[0].local_name, "reshade-shaders");
    assert_eq!(config.shader_repos[0].url, "https://github.com/crosire/reshade-shaders");
    assert_eq!(config.shader_repos[0].branch.as_deref(), Some("slim"));
    assert!(config.shader_repos.iter().all(|r| r.enabled_by_default));
    let repos = default_shader_repos();
    assert_eq!(repos[4].local_name, "prod80-shaders");
    assert_eq!(repos[1].branch, None);
}

#[test]
fn toggle_repo_disables_then_enables() {
    let mut o = ShaderOverrides::default();
    o.set_repo_enabled("sweetfx-shaders", false);
    assert!(!o.is_repo_enabled("sweetfx-shaders"));
    // disabling twice keeps one entry
    o.set_repo_enabled("sweetfx-shaders", false);
    assert_eq!(o.disabled_repos, vec!["sweetfx-shaders".to_owned()]);
    o.set_repo_enabled("sweetfx-shaders", true);
    assert!(o.is_repo_enabled("sweetfx-shaders"));
    assert!(o.disabled_repos.is_empty());
}
