use gnome_iris::reshade::paths::{
    components, file_name, join, parent_name, path_eq, CONFIG_FILE, GAMES_FILE, MERGED_DIR, RESHADE_SHADERS_DIR,
    RESHADE_STATE_FILE,
};

#[test]
fn reshade_shaders_dir_value() {
    assert_eq!(RESHADE_SHADERS_DIR, "ReShade_shaders");
}

#[test]
fn merged_dir_value() {
    assert_eq!(MERGED_DIR, "Merged");
}

#[test]
fn reshade_state_file_value() {
    assert_eq!(RESHADE_STATE_FILE, "reshade_state.json");
}

#[test]
fn config_file_value() {
    assert_eq!(CONFIG_FILE, "config.json");
}

#[test]
fn games_file_value() {
    assert_eq!(GAMES_FILE, "games.json");
}

#[test]
fn join_follows_path_rules() {
    assert_eq!(join("/data", "reshade"), "/data/reshade");
    assert_eq!(join("/data/", "reshade"), "/data/reshade");
    assert_eq!(join("", "reshade"), "reshade");
    assert_eq!(join("/data", "/abs"), "/abs");
}

#[test]
fn components_skip_root_dots_and_empty_pieces() {
    let cs: Vec<String> = components("/a//./b/../c/").into_iter().map(|v| v.into_iter().collect()).collect();
    assert_eq!(cs, vec!["a", "b", "..", "c"]);
    assert_eq!(file_name("/base/reshade/6.1.0/ReShade64.dll").as_deref(), Some("ReShade64.dll"));
    assert_eq!(parent_name("/base/reshade/6.1.0/ReShade64.dll").as_deref(), Some("6.1.0"));
    assert_eq!(file_name("/"), None);
}

#[test]
fn path_equality_compares_components() {
    assert!(path_eq("/games/hl2", "/games/hl2/"));
    assert!(path_eq("/games//hl2", "/games/./hl2"));
    assert!(!path_eq("/games/hl2", "games/hl2"));
    assert!(!path_eq("./a", "a"));
    assert!(!path_eq("/games/hl2", "/games/portal"));
}
