use gnome_iris::reshade::game::{DllOverride, ExeArch, InstallStatus};
use gnome_iris::reshade::install::{
    default_dll_for_arch, install_reshade, install_status_from_links, is_dll_path, is_exe_path, shader_repos_dir,
    uninstall_file_names,
};

fn probes_with(index: usize, target: Option<&str>) -> Vec<Option<Option<String>>> {
    let mut probes: Vec<Option<Option<String>>> = vec![None; 7];
    probes[index] = Some(target.map(|t| t.to_owned()));
    probes
}

#[test]
fn default_dll_for_arch_x86() {
    assert_eq!(default_dll_for_arch(ExeArch::X86), DllOverride::D3d9);
}

#[test]
fn default_dll_for_arch_x86_64() {
    assert_eq!(default_dll_for_arch(ExeArch::X86_64), DllOverride::Dxgi);
}

#[test]
fn detect_install_status_finds_installed() {
    let plan = install_reshade("/base", "/games/testgame", "testgame", "6.1.0", DllOverride::Dxgi, ExeArch::X86_64, false);
    // dxgi.dll is the sixth name probed
    let probes = probes_with(5, Some(plan.reshade_dll.target.as_str()));
    let status = install_status_from_links(&probes);
    assert!(matches!(
        status,
        InstallStatus::Installed {
            dll: DllOverride::Dxgi,
            arch: ExeArch::X86_64,
            ..
        }
    ));
}

#[test]
fn detect_install_status_not_installed() {
    let status = install_status_from_links(&vec![None; 7]);
    assert!(matches!(status, InstallStatus::NotInstalled));
}

#[test]
fn find_exes_returns_only_exe_files() {
    let names = ["/g/game.exe", "/g/readme.txt", "/g/engine.exe"];
    let exes: Vec<&str> = names.iter().copied().filter(|p| is_exe_path(p)).collect();
    assert_eq!(exes.len(), 2);
    assert!(exes.iter().all(|p| p.ends_with(".exe")));
}

#[test]
fn install_plan_links() {
    let plan = install_reshade("/base", "/games/hl2", "hl2", "6.1.0", DllOverride::D3d9, ExeArch::X86, false);
    assert_eq!(plan.reshade_dll.target, "/base/reshade/6.1.0/ReShade32.dll");
    assert_eq!(plan.reshade_dll.link, "/games/hl2/d3d9.dll");
    assert_eq!(plan.d3dcompiler.target, "/base/d3dcompiler_47.dll.32");
    assert_eq!(plan.d3dcompiler.link, "/games/hl2/d3dcompiler_47.dll");
    assert!(plan.shaders.is_none());
}

#[test]
fn install_then_detect_reads_back_arch_and_version() {
    let plan = install_reshade("/data/iris", "/games/hl2", "hl2", "6.7.3-Addon", DllOverride::D3d9, ExeArch::X86, false);
    let status = install_status_from_links(&probes_with(1, Some(plan.reshade_dll.target.as_str())));
    match status {
        InstallStatus::Installed { dll, arch, version } => {
            assert_eq!(dll, DllOverride::D3d9);
            assert_eq!(arch, ExeArch::X86);
            assert_eq!(version.as_deref(), Some("6.7.3-Addon"));
        },
        InstallStatus::NotInstalled => panic!("expected an install"),
    }
}

#[test]
fn unreadable_link_defaults_to_64_bit() {
    let status = install_status_from_links(&probes_with(0, None));
    match status {
        InstallStatus::Installed { dll, arch, version } => {
            assert_eq!(dll, DllOverride::D3d8);
            assert_eq!(arch, ExeArch::X86_64);
            assert_eq!(version, None);
        },
        InstallStatus::NotInstalled => panic!("expected an install"),
    }
}

#[test]
fn uninstall_removes_known_names() {
    assert_eq!(
        uninstall_file_names(DllOverride::Dxgi),
        vec!["dxgi.dll", "d3dcompiler_47.dll", "reshade-shaders", "ReShade.ini", "ReShade32.json", "ReShade64.json"]
    );
}

#[test]
fn dll_entries_are_recognised() {
    assert!(is_dll_path("ReShade64.dll"));
    assert!(is_dll_path("ReShade32.DLL"));
    assert!(!is_dll_path("readme.txt"));
    assert!(!is_dll_path(".dll"));
}

#[test]
fn x86_install_uses_reshade32_dll() {
    let plan = install_reshade("/base", "/games/testgame", "testgame", "6.7.3", DllOverride::D3d9, ExeArch::X86, false);
    assert!(plan.reshade_dll.target.ends_with("ReShade32.dll"));
    let names: Vec<&str> = DllOverride::all().iter().map(|d| d.symlink_name()).collect();
    let probes: Vec<Option<Option<String>>> = names
        .iter()
        .map(|n| {
            if plan.reshade_dll.link.ends_with(&format!("/{n}")) {
                Some(Some(plan.reshade_dll.target.clone()))
            } else {
                None
            }
        })
        .collect();
    let status = install_status_from_links(&probes);
    assert!(
        matches!(&status, InstallStatus::Installed { dll: DllOverride::D3d9, arch: ExeArch::X86, .. }),
        "Expected Installed{{D3d9, X86, ..}}, got {status:?}"
    );
}

#[test]
fn install_plan_links_per_game_shaders() {
    assert_eq!(shader_repos_dir("/base"), "/base/ReShade_shaders");
    let plan = install_reshade("/base", "/games/g", "testgame", "6.1.0", DllOverride::Dxgi, ExeArch::X86_64, true);
    let shaders = plan.shaders.expect("shader link planned");
    assert_eq!(shaders.target, "/base/Game_shaders/game-testgame");
    assert_eq!(shaders.link, "/games/g/reshade-shaders");
}
