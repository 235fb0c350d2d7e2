use gnome_iris::reshade::game::ExeArch;
use gnome_iris::reshade::steam::{
    exe_arch_from_bytes, is_appmanifest_name, is_steam_tool, parse_appmanifest, parse_library_folders_vdf,
    steam_root_candidates, VdfError,
};

fn fixture_vdf() -> &'static str {
    r#""libraryfolders"
{
	"0"
	{
		"path"		"/home/user/.local/share/Steam"
		"label"		""
		"apps"
		{
			"228980"		"2034"
		}
	}
	"1"
	{
		"path"		"/mnt/games/Steam"
		"label"		"games"
		"apps"
		{
			"400"		"4312"
		}
	}
}
"#
}

#[test]
fn parse_library_folders() {
    let folders = parse_library_folders_vdf(fixture_vdf()).unwrap();
    assert_eq!(folders.len(), 2);
    assert!(folders[0].contains(".local/share/Steam"), "expected Steam path, got: {}", folders[0]);
    assert!(folders[1].contains("mnt/games/Steam"), "expected games drive path, got: {}", folders[1]);
}

#[test]
fn parse_library_folders_rejects_bad_input() {
    assert_eq!(parse_library_folders_vdf("\"a\" {").unwrap_err(), VdfError::Invalid);
    assert_eq!(parse_library_folders_vdf("\"a\" \"b\"").unwrap_err(), VdfError::RootNotObject);
}

#[test]
fn detect_arch_x86_64_from_pe() {
    let mut buf = vec![0u8; 70];
    buf[0] = b'M';
    buf[1] = b'Z';
    // PE offset = 64 (little-endian u32)
    buf[60] = 64;
    buf[61] = 0;
    buf[62] = 0;
    buf[63] = 0;
    // PE signature
    buf[64] = b'P';
    buf[65] = b'E';
    buf[66] = 0;
    buf[67] = 0;
    // Machine: 0x8664 little-endian
    buf[68] = 0x64;
    buf[69] = 0x86;
    assert_eq!(exe_arch_from_bytes(&buf), Some(ExeArch::X86_64));
}

#[test]
fn detect_arch_x86_from_pe() {
    let mut buf = vec![0u8; 70];
    buf[0] = b'M';
    buf[1] = b'Z';
    buf[60] = 64;
    // PE signature
    buf[64] = b'P';
    buf[65] = b'E';
    // Machine: 0x014c (x86) little-endian
    buf[68] = 0x4c;
    buf[69] = 0x01;
    assert_eq!(exe_arch_from_bytes(&buf), Some(ExeArch::X86));
}

#[test]
fn detect_arch_returns_none_for_non_pe() {
    assert_eq!(exe_arch_from_bytes(b"not a pe file"), None);
}

#[test]
fn steam_tools_are_not_games() {
    assert!(is_steam_tool("Proton 8.0", "Proton 8.0"));
    assert!(is_steam_tool("Steam Linux Runtime 3.0 (sniper)", "SteamLinuxRuntime_sniper"));
    assert!(is_steam_tool("Game", "proton-experimental"));
    assert!(!is_steam_tool("Portal", "Portal"));
}

#[test]
fn appmanifest_gives_game_entry() {
    let acf = "\"AppState\"\n{\n\t\"appid\"\t\t\"400\"\n\t\"name\"\t\t\"Portal\"\n\t\"installdir\"\t\t\"Portal\"\n}\n";
    let e = parse_appmanifest(acf, "/mnt/games/Steam/steamapps").unwrap();
    assert_eq!(e.name, "Portal");
    assert_eq!(e.app_id, 400);
    assert_eq!(e.path, "/mnt/games/Steam/steamapps/common/Portal");
    let tool = "\"AppState\"\n{\n\t\"appid\"\t\t\"1\"\n\t\"name\"\t\t\"Proton 8.0\"\n\t\"installdir\"\t\t\"Proton 8.0\"\n}\n";
    assert!(parse_appmanifest(tool, "/s").is_none());
    let bad_id = "\"AppState\"\n{\n\t\"appid\"\t\t\"x\"\n\t\"name\"\t\t\"G\"\n\t\"installdir\"\t\t\"G\"\n}\n";
    assert_eq!(parse_appmanifest(bad_id, "/s").unwrap().app_id, 0);
}

#[test]
fn manifest_names_and_roots() {
    assert!(is_appmanifest_name("appmanifest_400.acf"));
    assert!(!is_appmanifest_name("appmanifest_400.acf.bak"));
    assert!(!is_appmanifest_name("libraryfolders.vdf"));
    assert_eq!(
        steam_root_candidates("/home/u"),
        vec!["/home/u/.local/share/Steam", "/home/u/.steam/steam", "/home/u/.steam/root"]
    );
}
