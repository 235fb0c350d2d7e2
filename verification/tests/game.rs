use gnome_iris::reshade::game::{DllOverride, ExeArch, Game, GameSource, InstallStatus};

#[test]
fn dll_override_symlink_name() {
    assert_eq!(DllOverride::Dxgi.symlink_name(), "dxgi.dll");
    assert_eq!(DllOverride::D3d9.symlink_name(), "d3d9.dll");
    assert_eq!(DllOverride::OpenGl32.symlink_name(), "opengl32.dll");
}

#[test]
fn game_id_is_deterministic() {
    let path = "/home/user/.steam/game";
    let id1 = Game::make_id(path);
    let id2 = Game::make_id(path);
    assert_eq!(id1, id2);
    assert_eq!(id1.len(), 128); // SHA-512 hex = 128 chars
}

#[test]
fn game_id_differs_for_different_paths() {
    let a = Game::make_id("/game/a");
    let b = Game::make_id("/game/b");
    assert_ne!(a, b);
}

#[test]
fn install_status_is_installed() {
    let status = InstallStatus::Installed {
        dll: DllOverride::Dxgi,
        arch: ExeArch::X86_64,
        version: None,
    };
    assert!(status.is_installed());
    assert!(!InstallStatus::NotInstalled.is_installed());
}

#[test]
fn game_id_is_lowercase_hex_sha512() {
    assert_eq!(
        Game::make_id("/game/a"),
        "8263b18657dd383a0002f51a474f2d295ab30184faf5b333a10e147a623d0d463e21575a4200e73fd721072ca259411d40e7ebff1a5c579296ba5489a5688d3b"
    );
}

#[test]
fn new_game_is_not_installed() {
    let g = Game::new("Half-Life 2".to_owned(), "/games/hl2".to_owned(), GameSource::Manual);
    assert_eq!(g.name, "Half-Life 2");
    assert_eq!(g.path, "/games/hl2");
    assert!(!g.status.is_installed());
    assert!(g.shader_overrides.disabled_repos.is_empty());
    assert_eq!(g.preferred_arch, None);
    assert_eq!(
        g.id,
        "0831eb9a2bfa002ca6b20fc074bcffcdc1ad6e38dd3c47f9017143722453f2c8aabd8040506e76d0e8827612ef5dc1419877d69d2a8f7cfc2845ce3b80fcb331"
    );
}

#[test]
fn dll_overrides_and_arch_names() {
    let all = DllOverride::all();
    assert_eq!(all.len(), 7);
    assert_eq!(all[0], DllOverride::D3d8);
    assert_eq!(all[6], DllOverride::OpenGl32);
    assert_eq!(ExeArch::X86.reshade_dll(), "ReShade32.dll");
    assert_eq!(ExeArch::X86_64.reshade_dll(), "ReShade64.dll");
    assert_eq!(ExeArch::X86.d3dcompiler_suffix(), "32");
    assert_eq!(ExeArch::X86_64.d3dcompiler_suffix(), "64");
    assert_eq!(ExeArch::X86_64.label(), "x86_64");
}
