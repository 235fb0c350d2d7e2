use gnome_iris::reshade::shaders::{game_merged_dir, merge_links, merge_sources, merge_target_dirs, merged_shaders_dir, merged_textures_dir};

#[test]
fn game_merged_dir_path_contains_prefix() {
    let dir = game_merged_dir("/tmp/data", "abc123");
    assert!(dir.contains("game-abc123"));
}

#[test]
fn game_merged_dir_keeps_sixteen_bytes_of_the_id() {
    let dir = game_merged_dir("/tmp/data", "0123456789abcdef0123");
    assert_eq!(dir, "/tmp/data/Game_shaders/game-0123456789abcdef");
}

#[test]
fn merged_dirs() {
    assert_eq!(merged_shaders_dir("/d"), "/d/ReShade_shaders/Merged/Shaders");
    assert_eq!(merged_textures_dir("/d"), "/d/ReShade_shaders/Merged/Textures");
}

#[test]
fn merge_skips_disabled_and_merged_dir() {
    let entries = vec!["enabled-repo".to_owned(), "Merged".to_owned(), "disabled-repo".to_owned(), "other".to_owned()];
    let disabled = vec!["disabled-repo".to_owned()];
    assert_eq!(merge_sources(&entries, &disabled), vec!["enabled-repo", "other"]);
}

#[test]
fn merge_links_first_repository_wins() {
    let existing = vec!["old.fx".to_owned()];
    let files = vec![
        ("a.fx".to_owned(), "/r/one/Shaders/a.fx".to_owned()),
        ("old.fx".to_owned(), "/r/one/Shaders/old.fx".to_owned()),
        ("a.fx".to_owned(), "/r/two/Shaders/a.fx".to_owned()),
        ("b.fx".to_owned(), "/r/two/Shaders/b.fx".to_owned()),
    ];
    let links = merge_links(&existing, &files);
    assert_eq!(
        links,
        vec![
            ("a.fx".to_owned(), "/r/one/Shaders/a.fx".to_owned()),
            ("b.fx".to_owned(), "/r/two/Shaders/b.fx".to_owned()),
        ]
    );
}

#[test]
fn rebuild_targets_are_the_merged_dirs() {
    let (s, t) = merge_target_dirs("/data/ReShade_shaders");
    assert_eq!(s, merged_shaders_dir("/data"));
    assert_eq!(t, merged_textures_dir("/data"));
}
