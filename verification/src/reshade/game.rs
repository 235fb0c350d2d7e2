//! Core game data model.
use vstd::prelude::*;

use crate::reshade::config::{clone_strings, ShaderOverrides};
use crate::reshade::reshade::names;
use crate::text::{clone_opt, opt_chars};
use crate::text::push_char;
use sha2::Digest;

verus! {

/// A game known to the application.
#[derive(Debug, Clone)]
pub struct Game {
    /// Lower-case hex SHA-512 of the game path, used as a stable identifier.
    pub id: String,
    /// Display name.
    pub name: String,
    /// Directory containing the game's `.exe`.
    pub path: String,
    /// Where this game was discovered.
    pub source: GameSource,
    /// Current `ReShade` install status.
    pub status: InstallStatus,
    /// Per-game shader repo opt-outs.
    pub shader_overrides: ShaderOverrides,
    /// Preferred architecture, set at add time or detected from the exe;
    /// `None` means the default for the detected exe at install time.
    pub preferred_arch: Option<ExeArch>,
}

/// How a game was discovered.
#[derive(Debug, Clone, Copy, PartialEq, Eq, Structural)]
pub enum GameSource {
    /// Discovered from the Steam library.
    Steam {
        /// Steam App ID.
        app_id: u32,
    },
    /// Added manually by the user.
    Manual,
}

/// `ReShade` installation status for a game.
#[derive(Debug, Clone)]
pub enum InstallStatus {
    /// `ReShade` is not installed for this game.
    NotInstalled,
    /// `ReShade` is installed with these settings.
    Installed {
        /// The DLL that `ReShade` is masquerading as.
        dll: DllOverride,
        /// Detected executable architecture.
        arch: ExeArch,
        /// The cached version the game links to, when it could be read.
        version: Option<String>,
    },
}

/// The plain value of a status: the DLL, architecture and version when installed.
pub open spec fn status_view(s: InstallStatus) -> Option<(DllOverride, ExeArch, Option<Seq<char>>)> {
    match s {
        InstallStatus::NotInstalled => None,
        InstallStatus::Installed { dll, arch, version } => Some((dll, arch, opt_chars(version))),
    }
}

/// The plain value of a game: identifier, name, path, source, status,
/// disabled repositories and preferred architecture.
pub open spec fn game_view(g: Game) -> (
    Seq<char>,
    Seq<char>,
    Seq<char>,
    GameSource,
    Option<(DllOverride, ExeArch, Option<Seq<char>>)>,
    Seq<Seq<char>>,
    Option<ExeArch>,
) {
    (g.id@, g.name@, g.path@, g.source, status_view(g.status), names(g.shader_overrides.disabled_repos@), g.preferred_arch)
}

/// Copies a game.
pub fn clone_game(g: &Game) -> (r: Game)
    ensures
        game_view(r) == game_view(*g),
{
    Game {
        id: g.id.clone(),
        name: g.name.clone(),
        path: g.path.clone(),
        source: g.source,
        status: g.status.copy(),
        shader_overrides: ShaderOverrides { disabled_repos: clone_strings(&g.shader_overrides.disabled_repos) },
        preferred_arch: g.preferred_arch,
    }
}

impl InstallStatus {
    /// A copy of this status.
    pub fn copy(&self) -> (r: InstallStatus)
        ensures
            status_view(r) == status_view(*self),
    {
        match self {
            InstallStatus::NotInstalled => InstallStatus::NotInstalled,
            InstallStatus::Installed { dll, arch, version } => InstallStatus::Installed {
                dll: *dll,
                arch: *arch,
                version: clone_opt(version),
            },
        }
    }

    /// Returns `true` if `ReShade` is currently installed.
    pub fn is_installed(&self) -> (r: bool)
        ensures
            r == (self is Installed),
    {
        match self {
            InstallStatus::Installed { .. } => true,
            InstallStatus::NotInstalled => false,
        }
    }
}

/// The Windows DLL name that `ReShade` replaces.
#[derive(Debug, Clone, Copy, PartialEq, Eq, Hash, Structural)]
pub enum DllOverride {
    /// `d3d8.dll`
    D3d8,
    /// `d3d9.dll`
    D3d9,
    /// `d3d11.dll`
    D3d11,
    /// `ddraw.dll`
    Ddraw,
    /// `dinput8.dll`
    Dinput8,
    /// `dxgi.dll` (default for 64-bit DirectX games)
    Dxgi,
    /// `opengl32.dll`
    OpenGl32,
}

/// The file name of the symlink for each DLL override.
pub open spec fn spec_symlink_name(d: DllOverride) -> Seq<char> {
    match d {
        DllOverride::D3d8 => "d3d8.dll"@,
        DllOverride::D3d9 => "d3d9.dll"@,
        DllOverride::D3d11 => "d3d11.dll"@,
        DllOverride::Ddraw => "ddraw.dll"@,
        DllOverride::Dinput8 => "dinput8.dll"@,
        DllOverride::Dxgi => "dxgi.dll"@,
        DllOverride::OpenGl32 => "opengl32.dll"@,
    }
}

/// All DLL overrides, in the order the UI lists them and detection probes them.
pub open spec fn spec_all_dlls() -> Seq<DllOverride> {
    seq![
        DllOverride::D3d8,
        DllOverride::D3d9,
        DllOverride::D3d11,
        DllOverride::Ddraw,
        DllOverride::Dinput8,
        DllOverride::Dxgi,
        DllOverride::OpenGl32,
    ]
}

impl DllOverride {
    /// Returns the filename used for the symlink in the game directory.
    pub fn symlink_name(self) -> (r: &'static str)
        ensures
            r@ == spec_symlink_name(self),
    {
        match self {
            DllOverride::D3d8 => "d3d8.dll",
            DllOverride::D3d9 => "d3d9.dll",
            DllOverride::D3d11 => "d3d11.dll",
            DllOverride::Ddraw => "ddraw.dll",
            DllOverride::Dinput8 => "dinput8.dll",
            DllOverride::Dxgi => "dxgi.dll",
            DllOverride::OpenGl32 => "opengl32.dll",
        }
    }

    /// All supported DLL overrides (for the UI dropdown and for detection).
    pub fn all() -> (r: Vec<DllOverride>)
        ensures
            r@ == spec_all_dlls(),
    {
        let r = vec![
            DllOverride::D3d8,
            DllOverride::D3d9,
            DllOverride::D3d11,
            DllOverride::Ddraw,
            DllOverride::Dinput8,
            DllOverride::Dxgi,
            DllOverride::OpenGl32,
        ];
        assert(r@ =~= spec_all_dlls());
        r
    }
}

/// Executable architecture.
#[derive(Debug, Clone, Copy, PartialEq, Eq, Hash, Structural)]
pub enum ExeArch {
    /// 32-bit (x86).
    X86,
    /// 64-bit (x86-64).
    X86_64,
}

/// The `ReShade` DLL file name for each architecture.
pub open spec fn spec_reshade_dll(a: ExeArch) -> Seq<char> {
    match a {
        ExeArch::X86 => "ReShade32.dll"@,
        ExeArch::X86_64 => "ReShade64.dll"@,
    }
}

/// The `d3dcompiler_47.dll` suffix for each architecture.
pub open spec fn spec_d3dcompiler_suffix(a: ExeArch) -> Seq<char> {
    match a {
        ExeArch::X86 => "32"@,
        ExeArch::X86_64 => "64"@,
    }
}

/// The short architecture label shown in the UI.
pub open spec fn spec_arch_label(a: ExeArch) -> Seq<char> {
    match a {
        ExeArch::X86 => "x86"@,
        ExeArch::X86_64 => "x86_64"@,
    }
}

impl ExeArch {
    /// Returns the `ReShade` DLL filename for this architecture.
    pub fn reshade_dll(self) -> (r: &'static str)
        ensures
            r@ == spec_reshade_dll(self),
    {
        match self {
            ExeArch::X86 => "ReShade32.dll",
            ExeArch::X86_64 => "ReShade64.dll",
        }
    }

    /// Returns the d3dcompiler suffix for this architecture.
    pub fn d3dcompiler_suffix(self) -> (r: &'static str)
        ensures
            r@ == spec_d3dcompiler_suffix(self),
    {
        match self {
            ExeArch::X86 => "32",
            ExeArch::X86_64 => "64",
        }
    }

    /// Returns the short label (`x86` or `x86_64`) shown in the UI.
    pub fn label(self) -> (r: &'static str)
        ensures
            r@ == spec_arch_label(self),
    {
        match self {
            ExeArch::X86 => "x86",
            ExeArch::X86_64 => "x86_64",
        }
    }
}

/// SHA-512 of `data`, as the `sha2` crate computes it.
pub uninterp spec fn sha512_digest(data: Seq<u8>) -> Seq<u8>;

/// Calls `sha2::Sha512::digest` (the `Digest` trait: `new`, `update`,
/// `finalize`). The contract names the 64-byte digest without stating SHA-512.
#[verifier::external_body]
fn sha512(data: &[u8]) -> (r: Vec<u8>)
    ensures
        r@ == sha512_digest(data@),
        r@.len() == 64,
{
    sha2::Sha512::digest(data).to_vec()
}

/// The lower-case hex digit for `d < 16`.
pub open spec fn hex_digit(d: int) -> char {
    if d < 10 {
        (('0' as int) + d) as char
    } else {
        (('a' as int) + d - 10) as char
    }
}

/// Lower-case hex encoding: two digits per byte, high nibble first.
pub open spec fn hex_lower(b: Seq<u8>) -> Seq<char>
    decreases b.len(),
{
    if b.len() == 0 {
        Seq::empty()
    } else {
        hex_lower(b.drop_last()).push(hex_digit(b.last() as int / 16)).push(
            hex_digit(b.last() as int % 16),
        )
    }
}

proof fn lemma_hex_len(b: Seq<u8>)
    ensures
        hex_lower(b).len() == 2 * b.len(),
    decreases b.len(),
{
    if b.len() > 0 {
        lemma_hex_len(b.drop_last());
    }
}

fn hex_char(d: u8) -> (r: char)
    requires
        d < 16,
    ensures
        r == hex_digit(d as int),
{
    let code: u8 = if d < 10 {
        48 + d
    } else {
        87 + d
    };
    code as char
}

/// Lower-case hex of `bytes`, as `format!("{:x}", ..)` prints a byte array.
pub fn to_hex_lower(bytes: &[u8]) -> (r: String)
    ensures
        r@ == hex_lower(bytes@),
{
    let mut r = String::new();
    let mut i: usize = 0;
    while i < bytes.len()
        invariant
            i <= bytes@.len(),
            r@ == hex_lower(bytes@.take(i as int)),
        decreases bytes.len() - i,
    {
        let b = bytes[i];
        push_char(&mut r, hex_char(b / 16));
        push_char(&mut r, hex_char(b % 16));
        assert(bytes@.take(i + 1).drop_last() =~= bytes@.take(i as int));
        i = i + 1;
    }
    assert(bytes@.take(bytes@.len() as int) =~= bytes@);
    r
}

/// The identifier of the game at `path`: the lower-case hex SHA-512 of its UTF-8 bytes.
pub open spec fn spec_make_id(path: Seq<char>) -> Seq<char> {
    hex_lower(sha512_digest(vstd::utf8::encode_utf8(path)))
}

impl Game {
    /// Creates a new uninstalled game entry.
    pub fn new(name: String, path: String, source: GameSource) -> (g: Self)
        ensures
            g.id@ == spec_make_id(path@),
            g.name@ == name@,
            g.path@ == path@,
            g.source == source,
            g.status is NotInstalled,
            g.shader_overrides.disabled_repos@.len() == 0,
            g.preferred_arch is None,
    {
        let id = Self::make_id(path.as_str());
        Game {
            id,
            name,
            path,
            source,
            status: InstallStatus::NotInstalled,
            shader_overrides: ShaderOverrides::default(),
            preferred_arch: None,
        }
    }

    /// Derives a stable ID from the game path (SHA-512 hex, 128 characters).
    pub fn make_id(path: &str) -> (r: String)
        ensures
            r@ == spec_make_id(path@),
            r@.len() == 128,
    {
        let bytes = path.as_bytes();
        let digest = sha512(bytes);
        proof {
            lemma_hex_len(digest@);
        }
        to_hex_lower(digest.as_slice())
    }
}



/// Law: each DLL override links `ReShade` under the lower-case file name of
/// the DLL it stands for, the one the game loads.
pub proof fn lemma_symlink_names_are_dll_names()
    ensures
        spec_symlink_name(DllOverride::D3d8) == "d3d8.dll"@,
        spec_symlink_name(DllOverride::D3d9) == "d3d9.dll"@,
        spec_symlink_name(DllOverride::D3d11) == "d3d11.dll"@,
        spec_symlink_name(DllOverride::Ddraw) == "ddraw.dll"@,
        spec_symlink_name(DllOverride::Dinput8) == "dinput8.dll"@,
        spec_symlink_name(DllOverride::Dxgi) == "dxgi.dll"@,
        spec_symlink_name(DllOverride::OpenGl32) == "opengl32.dll"@,
{
}

} // verus!
