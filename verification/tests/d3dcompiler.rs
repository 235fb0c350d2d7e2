use gnome_iris::reshade::d3dcompiler::dll_path;
use gnome_iris::reshade::game::ExeArch;

#[test]
fn dll_path_32bit() {
    let path = dll_path("/tmp/iris", ExeArch::X86);
    assert!(path.ends_with("d3dcompiler_47.dll.32"));
}

#[test]
fn dll_path_64bit() {
    let path = dll_path("/tmp/iris", ExeArch::X86_64);
    assert!(path.ends_with("d3dcompiler_47.dll.64"));
    assert_eq!(path, "/tmp/iris/d3dcompiler_47.dll.64");
}
