//! Installing and uninstalling `ReShade` into a game directory via symlinks:
//! which links to make, which names to remove, and how to read back the
//! install status from the links found.
use vstd::prelude::*;

use crate::text::opt_chars;

use crate::reshade::d3dcompiler::{dll_path, spec_dll_file_name};
use crate::reshade::game::{
    spec_all_dlls, spec_reshade_dll, spec_symlink_name, DllOverride, ExeArch, InstallStatus,
};
use crate::reshade::paths::{
    is_named, named_components, pieces, file_name, extension, join, parent_name, spec_extension, spec_file_name, spec_join,
    spec_parent_name, RESHADE_SHADERS_DIR,
};
use crate::reshade::reshade::{spec_version_dir, version_dir};
use crate::reshade::shaders::{game_merged_dir, short_id_len, spec_game_merged_dir};
use vstd::string::StringSliceAdditionalSpecFns;
use vstd::utf8::is_char_boundary;
use crate::text::{chars_of, contains, contains_sub, lowercase, lowercase_chars};

verus! {

/// Name of the compiler DLL link in the game directory.
pub const D3DCOMPILER_LINK: &'static str = "d3dcompiler_47.dll";

/// Name of the shader tree link in the game directory.
pub const SHADERS_LINK: &'static str = "reshade-shaders";

/// Returns the default DLL override for a given architecture.
pub fn default_dll_for_arch(arch: ExeArch) -> (r: DllOverride)
    ensures
        r == (match arch {
            ExeArch::X86 => DllOverride::D3d9,
            ExeArch::X86_64 => DllOverride::Dxgi,
        }),
{
    match arch {
        ExeArch::X86 => DllOverride::D3d9,
        ExeArch::X86_64 => DllOverride::Dxgi,
    }
}

/// A symlink to create: `link` will point at `target`.
#[derive(Debug, Clone)]
pub struct Symlink {
    /// What the link points at.
    pub target: String,
    /// Where the link is created.
    pub link: String,
}

/// The links that installing `ReShade` into a game directory creates.
#[derive(Debug, Clone)]
pub struct InstallPlan {
    /// `base/reshade/<version>/ReShade{32,64}.dll` linked as `<game>/<dll>.dll`.
    pub reshade_dll: Symlink,
    /// `base/d3dcompiler_47.dll.<arch>` linked as `<game>/d3dcompiler_47.dll`.
    pub d3dcompiler: Symlink,
    /// The game's per-game shader tree linked as `<game>/reshade-shaders`, when
    /// shader repositories were downloaded; the tree is rebuilt before the link is made.
    pub shaders: Option<Symlink>,
}

/// `base/ReShade_shaders`, where the shader repositories are downloaded.
pub open spec fn spec_shader_repos_dir(base: Seq<char>) -> Seq<char> {
    spec_join(base, RESHADE_SHADERS_DIR@)
}

/// The directory whose existence decides whether installing links a shader
/// tree: `base/ReShade_shaders`.
pub fn shader_repos_dir(base: &str) -> (r: String)
    ensures
        r@ == spec_shader_repos_dir(base@),
{
    join(base, RESHADE_SHADERS_DIR)
}

/// Where installing links the `ReShade` DLL in `game_dir`: under the name of
/// the DLL override.
pub open spec fn spec_dll_link(game_dir: Seq<char>, dll: DllOverride) -> Seq<char> {
    spec_join(game_dir, spec_symlink_name(dll))
}

/// Where installing links the compiler DLL in `game_dir`.
pub open spec fn spec_compiler_link(game_dir: Seq<char>) -> Seq<char> {
    spec_join(game_dir, D3DCOMPILER_LINK@)
}

/// Where installing links the per-game shader tree in `game_dir`.
pub open spec fn spec_shaders_link(game_dir: Seq<char>) -> Seq<char> {
    spec_join(game_dir, SHADERS_LINK@)
}

/// Target of the `ReShade` DLL link.
pub open spec fn spec_reshade_target(base: Seq<char>, version: Seq<char>, arch: ExeArch) -> Seq<char> {
    spec_join(spec_version_dir(base, version), spec_reshade_dll(arch))
}

/// Installs `ReShade` into `game_dir` by symlinks: computes the links to create
/// for `version` as `dll` for `arch`, which the caller then makes on disk
/// (replacing what is there). When shader repositories were downloaded
/// (`repos_present`: [`shader_repos_dir`] exists), `<game>/reshade-shaders` also
/// links to the game's per-game shader tree `base/Game_shaders/game-<id>`;
/// otherwise that name is not created.
pub fn install_reshade(
    base: &str,
    game_dir: &str,
    game_id: &str,
    version: &str,
    dll: DllOverride,
    arch: ExeArch,
    repos_present: bool,
) -> (r: InstallPlan)
    requires
        repos_present ==> game_id.spec_bytes().len() <= usize::MAX
            && is_char_boundary(game_id.spec_bytes(), short_id_len(game_id)),
    ensures
        r.reshade_dll.target@ == spec_reshade_target(base@, version@, arch),
        r.reshade_dll.link@ == spec_dll_link(game_dir@, dll),
        r.d3dcompiler.target@ == spec_join(base@, spec_dll_file_name(arch)),
        r.d3dcompiler.link@ == spec_compiler_link(game_dir@),
        repos_present ==> (r.shaders matches Some(l)
            && l.target@ == spec_game_merged_dir(base@, game_id)
            && l.link@ == spec_shaders_link(game_dir@)),
        !repos_present ==> r.shaders is None,
{
    let vdir = version_dir(base, version);
    let reshade_dll = Symlink {
        target: join(vdir.as_str(), arch.reshade_dll()),
        link: join(game_dir, dll.symlink_name()),
    };
    let d3dcompiler = Symlink { target: dll_path(base, arch), link: join(game_dir, D3DCOMPILER_LINK) };
    let shaders = if repos_present {
        Some(Symlink { target: game_merged_dir(base, game_id), link: join(game_dir, SHADERS_LINK) })
    } else {
        None
    };
    InstallPlan { reshade_dll, d3dcompiler, shaders }
}

/// The names that uninstalling removes from the game directory, when they are symlinks.
pub open spec fn spec_uninstall_names(dll: DllOverride) -> Seq<Seq<char>> {
    seq![
        spec_symlink_name(dll),
        D3DCOMPILER_LINK@,
        SHADERS_LINK@,
        "ReShade.ini"@,
        "ReShade32.json"@,
        "ReShade64.json"@,
    ]
}

/// The names that uninstalling removes from the game directory, when they are symlinks.
pub fn uninstall_file_names(dll: DllOverride) -> (r: Vec<String>)
    ensures
        r@.map_values(|s: String| s@) == spec_uninstall_names(dll),
{
    let r = vec![
        dll.symlink_name().to_owned(),
        D3DCOMPILER_LINK.to_owned(),
        SHADERS_LINK.to_owned(),
        "ReShade.ini".to_owned(),
        "ReShade32.json".to_owned(),
        "ReShade64.json".to_owned(),
    ];
    assert(r@.map_values(|s: String| s@) =~= spec_uninstall_names(dll));
    r
}

/// Marker of the 64-bit DLL in a link target.
pub const MARK_64: &'static str = "ReShade64";

/// Marker of the 32-bit DLL in a link target.
pub const MARK_32: &'static str = "ReShade32";

/// The architecture read from a link target (64-bit when neither marker appears
/// or the target could not be read).
pub open spec fn spec_target_arch(target: Option<Seq<char>>) -> ExeArch {
    match target {
        Some(t) => if contains_sub(t, MARK_64@) {
            ExeArch::X86_64
        } else if contains_sub(t, MARK_32@) {
            ExeArch::X86
        } else {
            ExeArch::X86_64
        },
        None => ExeArch::X86_64,
    }
}

/// The version read from a link target: the name of the directory holding the DLL.
pub open spec fn spec_target_version(target: Option<Seq<char>>) -> Option<Seq<char>> {
    match target {
        Some(t) => spec_parent_name(t),
        None => None,
    }
}

/// What was found at one DLL name in the game directory: `None` when it is not a
/// symlink, `Some(None)` when it is one whose target could not be read.
pub type LinkProbe = Option<Option<String>>;

/// The target of a probe, as plain text.
pub open spec fn probe_target(p: Option<Option<String>>) -> Option<Seq<char>> {
    match p {
        Some(Some(t)) => Some(t@),
        _ => None,
    }
}

/// Probe `i` is the first symlink found.
pub open spec fn first_link(probes: Seq<Option<Option<String>>>, i: int) -> bool {
    &&& 0 <= i < probes.len()
    &&& probes[i] is Some
    &&& forall|j: int| 0 <= j < i ==> probes[j] is None
}

/// Reads the arch and version from one symlink target.
fn read_target(target: &Option<String>) -> (r: (ExeArch, Option<String>))
    ensures
        r.0 == spec_target_arch(opt_chars(*target)),
        opt_chars(r.1) == spec_target_version(opt_chars(*target)),
{
    match target {
        Some(t) => {
            let v = chars_of(t.as_str());
            let m64 = chars_of(MARK_64);
            let m32 = chars_of(MARK_32);
            let arch = if contains(v.as_slice(), m64.as_slice()) {
                ExeArch::X86_64
            } else if contains(v.as_slice(), m32.as_slice()) {
                ExeArch::X86
            } else {
                ExeArch::X86_64
            };
            (arch, parent_name(t.as_str()))
        },
        None => (ExeArch::X86_64, None),
    }
}

/// Detects the `ReShade` install status from what was found at each DLL name.
///
/// `probes[i]` describes the name of `DllOverride::all()[i]`. The first name
/// that is a symlink decides: its target names the architecture (`ReShade64`
/// or `ReShade32`) and, through its parent directory, the version.
pub fn install_status_from_links(probes: &Vec<Option<Option<String>>>) -> (r: InstallStatus)
    requires
        probes@.len() == spec_all_dlls().len(),
    ensures
        (forall|i: int| 0 <= i < probes@.len() ==> probes@[i] is None) ==> r is NotInstalled,
        forall|i: int|
            #![trigger first_link(probes@, i)]
            first_link(probes@, i) ==> (r matches InstallStatus::Installed { dll, arch, version } && dll
                == spec_all_dlls()[i] && arch == spec_target_arch(probe_target(probes@[i]))
                && opt_chars(version) == spec_target_version(probe_target(probes@[i]))),
{
    let all = DllOverride::all();
    let mut i: usize = 0;
    while i < probes.len()
        invariant
            all@ == spec_all_dlls(),
            probes@.len() == all@.len(),
            i <= probes@.len(),
            forall|j: int| 0 <= j < i ==> probes@[j] is None,
        decreases probes.len() - i,
    {
        match &probes[i] {
            Some(target) => {
                let (arch, version) = read_target(target);
                let r = InstallStatus::Installed { dll: all[i], arch, version };
                assert forall|k: int| #![trigger first_link(probes@, k)] first_link(probes@, k) implies k == i by {
                    if k < i {
                    } else if k > i {
                        assert(probes@[i as int] is None);
                    }
                }
                assert(probe_target(probes@[i as int]) == opt_chars(*target));
                return r;
            },
            None => {},
        }
        i = i + 1;
    }
    InstallStatus::NotInstalled
}

/// `name` (a file name) has the extension `exe`, as `Path::extension() == "exe"`.
pub open spec fn spec_is_exe_name(name: Seq<char>) -> bool {
    spec_extension(name) == Some("exe"@)
}

/// The path names a file whose extension is exactly `exe`.
pub open spec fn spec_is_exe_path(path: Seq<char>) -> bool {
    match spec_file_name(path) {
        Some(n) => spec_is_exe_name(n),
        None => false,
    }
}

/// Returns `true` if `path` ends in a file name with the extension `exe`
/// (case-sensitive), the filter `find_exes` applies.
pub fn is_exe_path(path: &str) -> (r: bool)
    ensures
        r == spec_is_exe_path(path@),
{
    match file_name(path) {
        Some(n) => {
            let nv = chars_of(n.as_str());
            match extension(nv.as_slice()) {
                Some(e) => {
                    let exe = chars_of("exe");
                    crate::text::chars_eq(e.as_slice(), exe.as_slice())
                },
                None => false,
            }
        },
        None => false,
    }
}

/// The path names a file whose extension is `dll` in any ASCII case.
pub open spec fn spec_is_dll_path(path: Seq<char>) -> bool {
    match spec_file_name(path) {
        Some(n) => match spec_extension(n) {
            Some(e) => lowercase(e) == "dll"@,
            None => false,
        },
        None => false,
    }
}

/// Returns `true` if the archive entry `name` is a DLL (`eq_ignore_ascii_case("dll")`),
/// the filter applied when extracting a `ReShade` installer.
pub fn is_dll_path(name: &str) -> (r: bool)
    ensures
        r == spec_is_dll_path(name@),
{
    match file_name(name) {
        Some(n) => {
            let nv = chars_of(n.as_str());
            match extension(nv.as_slice()) {
                Some(e) => {
                    let low = lowercase_chars(e.as_slice());
                    let dll = chars_of("dll");
                    crate::text::chars_eq(low.as_slice(), dll.as_slice())
                },
                None => false,
            }
        },
        None => false,
    }
}


/// A plain path component: non-empty, without `/`, and neither `.` nor `..`.
pub open spec fn is_plain_name(s: Seq<char>) -> bool {
    &&& s.len() > 0
    &&& forall|i: int| 0 <= i < s.len() ==> s[i] != '/'
    &&& s != seq!['.']
    &&& s != seq!['.', '.']
}

proof fn lemma_pieces_append(x: Seq<char>, b: Seq<char>)
    requires
        forall|i: int| 0 <= i < b.len() ==> b[i] != '/',
    ensures
        pieces(x).len() >= 1,
        pieces(x + b) == pieces(x).update(pieces(x).len() - 1, pieces(x).last() + b),
    decreases b.len(),
{
    lemma_pieces_len(x);
    if b.len() == 0 {
        assert(x + b =~= x);
        assert(pieces(x).last() + b =~= pieces(x).last());
        assert(pieces(x).update(pieces(x).len() - 1, pieces(x).last()) =~= pieces(x));
    } else {
        let b2 = b.drop_last();
        lemma_pieces_append(x, b2);
        assert((x + b).drop_last() =~= x + b2);
        assert((x + b).last() == b.last());
        let p = pieces(x + b2);
        lemma_pieces_len(x + b2);
        assert(p.last() + seq![b.last()] =~= p.last().push(b.last()));
        assert(pieces(x).last() + b2 + seq![b.last()] =~= pieces(x).last() + b);
        assert(p.last() == pieces(x).last() + b2);
        assert(pieces(x + b) =~= pieces(x).update(pieces(x).len() - 1, pieces(x).last() + b));
    }
}

proof fn lemma_pieces_len(x: Seq<char>)
    ensures
        pieces(x).len() >= 1,
    decreases x.len(),
{
    if x.len() > 0 {
        lemma_pieces_len(x.drop_last());
    }
}

proof fn lemma_named_join(x: Seq<char>, b: Seq<char>)
    requires
        is_plain_name(b),
    ensures
        named_components(spec_join(x, b)) == named_components(x).push(b),
{
    let pred = |p: Seq<char>| is_named(p);
    assert(is_named(b)) by {
        if b == seq!['.'] {
        }
    }
    lemma_pieces_len(x);
    if x.len() == 0 {
        assert(spec_join(x, b) == x + b);
        lemma_pieces_append(x, b);
        assert(pieces(x) =~= seq![Seq::<char>::empty()]);
        assert(pieces(x + b) =~= seq![b]);
        assert(seq![b] =~= Seq::<Seq<char>>::empty().push(b));
        Seq::<Seq<char>>::empty().lemma_filter_push(b, pred);
        Seq::<Seq<char>>::empty().lemma_filter_push(Seq::<char>::empty(), pred);
        assert(seq![Seq::<char>::empty()] =~= Seq::<Seq<char>>::empty().push(Seq::<char>::empty()));
        reveal(Seq::filter);
    } else if x.last() != '/' {
        let xs = x.push('/');
        assert(spec_join(x, b) =~= xs + b);
        assert(xs.drop_last() =~= x);
        assert(pieces(xs) == pieces(x).push(Seq::<char>::empty()));
        lemma_pieces_append(xs, b);
        assert(Seq::<char>::empty() + b =~= b);
        assert(pieces(xs + b) =~= pieces(x).push(b));
        pieces(x).lemma_filter_push(b, pred);
    } else {
        let x1 = x.drop_last();
        assert(x1.push('/') =~= x);
        assert(spec_join(x, b) == x + b);
        assert(pieces(x) == pieces(x1).push(Seq::<char>::empty()));
        lemma_pieces_append(x, b);
        assert(Seq::<char>::empty() + b =~= b);
        assert(pieces(x + b) =~= pieces(x1).push(b));
        pieces(x1).lemma_filter_push(b, pred);
        pieces(x1).lemma_filter_push(Seq::<char>::empty(), pred);
    }
}

proof fn lemma_join_ends_with(x: Seq<char>, b: Seq<char>)
    requires
        b.len() > 0,
        b[0] != '/',
    ensures
        spec_join(x, b).len() >= b.len(),
        spec_join(x, b).subrange(spec_join(x, b).len() - b.len(), spec_join(x, b).len() as int) == b,
{
    let j = spec_join(x, b);
    assert(j.subrange(j.len() - b.len(), j.len() as int) =~= b);
}

proof fn lemma_contains_split(a: Seq<char>, b: Seq<char>, p: Seq<char>)
    requires
        p.len() > 0,
        forall|i: int| 0 <= i < p.len() ==> p[i] != '/',
        a.len() == 0 || a.last() == '/',
        contains_sub(a + b, p),
    ensures
        contains_sub(a, p) || contains_sub(b, p),
{
    let s = a + b;
    let i = choose|i: int| 0 <= i && i + p.len() <= s.len() && #[trigger] s.subrange(i, i + p.len()) == p;
    if i + p.len() <= a.len() {
        assert(a.subrange(i, i + p.len()) =~= s.subrange(i, i + p.len()));
    } else if i >= a.len() {
        assert(b.subrange(i - a.len(), i - a.len() + p.len()) =~= s.subrange(i, i + p.len()));
    } else {
        // the occurrence covers the separator that ends `a`
        assert(s.subrange(i, i + p.len())[a.len() - 1 - i] == a.last());
    }
}

proof fn lemma_contains_join(x: Seq<char>, b: Seq<char>, p: Seq<char>)
    requires
        p.len() > 0,
        forall|i: int| 0 <= i < p.len() ==> p[i] != '/',
        b.len() > 0 && b[0] != '/',
        contains_sub(spec_join(x, b), p),
    ensures
        contains_sub(x, p) || contains_sub(b, p),
{
    if x.len() > 0 && x.last() != '/' {
        let xs = x.push('/');
        assert(spec_join(x, b) =~= xs + b);
        lemma_contains_split(xs, b, p);
        if contains_sub(xs, p) {
            let i = choose|i: int| 0 <= i && i + p.len() <= xs.len() && #[trigger] xs.subrange(i, i + p.len()) == p;
            if i + p.len() <= x.len() {
                assert(x.subrange(i, i + p.len()) =~= xs.subrange(i, i + p.len()));
            } else {
                assert(xs.subrange(i, i + p.len())[x.len() - i] == '/');
            }
        }
    } else {
        lemma_contains_split(x, b, p);
    }
}

proof fn lemma_contains_at_end(x: Seq<char>, b: Seq<char>, p: Seq<char>)
    requires
        b.len() >= p.len(),
        b.len() > 0 && b[0] != '/',
        b.subrange(0, p.len() as int) == p,
    ensures
        contains_sub(spec_join(x, b), p),
{
    lemma_join_ends_with(x, b);
    let j = spec_join(x, b);
    let i = j.len() - b.len();
    assert(j.subrange(i, i + p.len()) =~= b.subrange(0, p.len() as int)) by {
        assert forall|k: int| 0 <= k < p.len() implies j.subrange(i, i + p.len())[k] == b.subrange(0, p.len() as int)[k] by {
            assert(j.subrange(i, j.len() as int)[k] == b[k]);
        }
    }
}

/// Law: the `ReShade` DLL link that installing creates reads back as the
/// architecture and version it was made for, when the version is a plain
/// directory name and, for 32-bit installs, neither the data directory nor the
/// version contains `ReShade64` (the 64-bit marker is looked for first).
pub proof fn lemma_install_then_detect(base: Seq<char>, version: Seq<char>, arch: ExeArch)
    requires
        is_plain_name(version),
        arch == ExeArch::X86 ==> !contains_sub(base, MARK_64@) && !contains_sub(version, MARK_64@),
    ensures
        spec_target_arch(Some(spec_reshade_target(base, version, arch))) == arch,
        spec_target_version(Some(spec_reshade_target(base, version, arch))) == Some(version),
{
    reveal_strlit("ReShade32.dll");
    reveal_strlit("ReShade64.dll");
    reveal_strlit("ReShade64");
    reveal_strlit("ReShade32");
    reveal_strlit("reshade");
    let dll = spec_reshade_dll(arch);
    let z = spec_join(base, crate::reshade::reshade::RESHADE_DIR@);
    let y = spec_join(z, version);
    let t = spec_join(y, dll);
    assert(t == spec_reshade_target(base, version, arch));
    assert(is_plain_name(dll)) by {
        assert(dll.len() == 13);
        assert forall|i: int| 0 <= i < dll.len() implies dll[i] != '/' by {}
        assert(dll != seq!['.']) by {
            if dll == seq!['.'] {
                assert(dll.len() == 1);
            }
        }
        assert(dll != seq!['.', '.']) by {
            if dll == seq!['.', '.'] {
                assert(dll.len() == 2);
            }
        }
    }
    // version
    lemma_named_join(y, dll);
    lemma_named_join(z, version);
    let cs = named_components(t);
    assert(cs == named_components(z).push(version).push(dll));
    assert(cs[cs.len() - 2] == version);
    // architecture
    let m = if arch == ExeArch::X86 { MARK_32@ } else { MARK_64@ };
    assert(dll.subrange(0, 9) =~= m);
    lemma_contains_at_end(y, dll, m);
    if arch == ExeArch::X86 {
        let m64 = MARK_64@;
        assert forall|i: int| 0 <= i && i + m64.len() <= dll.len() implies #[trigger] dll.subrange(i, i + m64.len()) != m64 by {
            if i == 0 {
                assert(dll.subrange(i, i + m64.len())[7] != m64[7]);
            } else {
                assert(dll.subrange(i, i + m64.len())[0] != m64[0]);
            }
        }
        assert(!contains_sub(dll, m64));
        assert(!contains_sub(crate::reshade::reshade::RESHADE_DIR@, m64));
        if contains_sub(t, m64) {
            lemma_contains_join(y, dll, m64);
            lemma_contains_join(z, version, m64);
            lemma_contains_join(base, crate::reshade::reshade::RESHADE_DIR@, m64);
        }
    }
}


/// Law: uninstalling removes, first, exactly the links that installing with
/// the same DLL override made in the game directory: the `ReShade` DLL link,
/// then the compiler link, then the shader tree link.
pub proof fn lemma_uninstall_removes_install_links(game_dir: Seq<char>, dll: DllOverride)
    ensures
        spec_uninstall_names(dll).len() >= 3,
        spec_join(game_dir, spec_uninstall_names(dll)[0]) == spec_dll_link(game_dir, dll),
        spec_join(game_dir, spec_uninstall_names(dll)[1]) == spec_compiler_link(game_dir),
        spec_join(game_dir, spec_uninstall_names(dll)[2]) == spec_shaders_link(game_dir),
{
}

} // verus!
