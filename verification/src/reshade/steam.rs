//! Steam library discovery: the KeyValues (VDF) documents Steam writes, the
//! filter that tells tools from games, and the PE header check that tells the
//! architecture of an executable.
use vstd::prelude::*;

use crate::reshade::game::ExeArch;
use crate::reshade::paths::{join, spec_join};
use crate::reshade::reshade::{parse_u64, spec_parse_u32, spec_parse_u64};
use crate::text::{chars_of, lowercase, lowercase_chars, push_str, starts_with, str_eq, ends_with};

verus! {

/// A KeyValues value: a string, or an object mapping each key to the values
/// stored under it (in key order, each key once).
#[derive(Debug)]
pub enum VdfValue {
    /// A string value.
    Str(String),
    /// An object: `(key, values)` pairs.
    Obj(Vec<(String, Vec<VdfValue>)>),
}

/// The values stored under `key` in an object's entries.
pub open spec fn obj_get(entries: Seq<(String, Vec<VdfValue>)>, key: Seq<char>) -> Option<Seq<VdfValue>>
    decreases entries.len(),
{
    if entries.len() == 0 {
        None
    } else if entries[0].0@ == key {
        Some(entries[0].1@)
    } else {
        obj_get(entries.drop_first(), key)
    }
}

/// `value.get_obj()?.get(key)?.first()?.get_str()`.
pub open spec fn spec_first_str(value: VdfValue, key: Seq<char>) -> Option<Seq<char>> {
    match value {
        VdfValue::Obj(entries) => match obj_get(entries@, key) {
            Some(vs) => if vs.len() > 0 {
                match vs[0] {
                    VdfValue::Str(s) => Some(s@),
                    _ => None,
                }
            } else {
                None
            },
            None => None,
        },
        VdfValue::Str(_) => None,
    }
}

/// The `path` string of each library object among `values`, in order.
pub open spec fn paths_in_values(values: Seq<VdfValue>) -> Seq<Seq<char>>
    decreases values.len(),
{
    if values.len() == 0 {
        Seq::empty()
    } else {
        let rest = paths_in_values(values.drop_last());
        match spec_first_str(values.last(), "path"@) {
            Some(p) => rest.push(p),
            None => rest,
        }
    }
}

/// The library paths under every key of the root object, in key order.
pub open spec fn paths_in_entries(entries: Seq<(String, Vec<VdfValue>)>) -> Seq<Seq<char>>
    decreases entries.len(),
{
    if entries.len() == 0 {
        Seq::empty()
    } else {
        paths_in_entries(entries.drop_last()) + paths_in_values(entries.last().1@)
    }
}

/// The library root paths listed in a parsed `libraryfolders.vdf`, or `None`
/// when its root value is not an object.
pub open spec fn spec_library_folders(root: VdfValue) -> Option<Seq<Seq<char>>> {
    match root {
        VdfValue::Obj(entries) => Some(paths_in_entries(entries@)),
        VdfValue::Str(_) => None,
    }
}

/// The values stored under `key` in `entries`.
fn get<'a>(entries: &'a Vec<(String, Vec<VdfValue>)>, key: &str) -> (r: Option<&'a Vec<VdfValue>>)
    ensures
        match obj_get(entries@, key@) {
            Some(vs) => r matches Some(v) && v@ == vs,
            None => r is None,
        },
{
    let mut i: usize = 0;
    assert(entries@.skip(0) =~= entries@);
    while i < entries.len()
        invariant
            i <= entries@.len(),
            obj_get(entries@, key@) == obj_get(entries@.skip(i as int), key@),
        decreases entries.len() - i,
    {
        assert(entries@.skip(i as int).drop_first() =~= entries@.skip(i + 1));
        if str_eq(entries[i].0.as_str(), key) {
            return Some(&entries[i].1);
        }
        i = i + 1;
    }
    None
}

/// `value.get_obj()?.get(key)?.first()?.get_str()`.
pub fn first_str(value: &VdfValue, key: &str) -> (r: Option<String>)
    ensures
        match spec_first_str(*value, key@) {
            Some(s) => r matches Some(t) && t@ == s,
            None => r is None,
        },
{
    match value {
        VdfValue::Obj(entries) => match get(entries, key) {
            Some(vs) => {
                if vs.len() > 0 {
                    match &vs[0] {
                        VdfValue::Str(s) => Some(s.clone()),
                        _ => None,
                    }
                } else {
                    None
                }
            },
            None => None,
        },
        VdfValue::Str(_) => None,
    }
}

/// Reads the library root paths out of a parsed `libraryfolders.vdf`.
///
/// Returns `None` when the root value is not an object.
pub fn library_folders(root: &VdfValue) -> (r: Option<Vec<String>>)
    ensures
        match spec_library_folders(*root) {
            Some(ps) => r matches Some(v) && v@.map_values(|s: String| s@) == ps,
            None => r is None,
        },
{
    match root {
        VdfValue::Str(_) => None,
        VdfValue::Obj(entries) => {
            let mut paths: Vec<String> = Vec::new();
            let mut i: usize = 0;
            assert(entries@.take(0) =~= Seq::<(String, Vec<VdfValue>)>::empty());
            while i < entries.len()
                invariant
                    i <= entries@.len(),
                    paths@.map_values(|s: String| s@) == paths_in_entries(entries@.take(i as int)),
                decreases entries.len() - i,
            {
                let values = &entries[i].1;
                let ghost before = paths@.map_values(|s: String| s@);
                let mut j: usize = 0;
                assert(values@.take(0) =~= Seq::<VdfValue>::empty());
                assert(before + paths_in_values(values@.take(0)) =~= before);
                while j < values.len()
                    invariant
                        j <= values@.len(),
                        paths@.map_values(|s: String| s@) == before + paths_in_values(values@.take(j as int)),
                    decreases values.len() - j,
                {
                    assert(values@.take(j + 1).drop_last() =~= values@.take(j as int));
                    assert(values@.take(j + 1).last() == values@[j as int]);
                    let found = first_str(&values[j], "path");
                    match found {
                        Some(p) => {
                            assert(paths_in_values(values@.take(j + 1)) == paths_in_values(values@.take(j as int)).push(p@));
                            let ghost old_paths = paths@;
                            let ghost pv = p@;
                            paths.push(p);
                            assert(paths@ == old_paths.push(paths@[paths@.len() - 1]));
                            assert(paths@[paths@.len() - 1]@ == pv);
                            assert(paths@.map_values(|s: String| s@) =~= old_paths.map_values(|s: String| s@).push(pv));
                            assert(paths@.map_values(|s: String| s@) =~= before + paths_in_values(values@.take(j + 1)));
                        },
                        None => {
                            assert(paths_in_values(values@.take(j + 1)) == paths_in_values(values@.take(j as int)));
                        },
                    }
                    j = j + 1;
                }
                assert(values@.take(values@.len() as int) =~= values@);
                assert(entries@.take(i + 1).drop_last() =~= entries@.take(i as int));
                i = i + 1;
            }
            assert(entries@.take(entries@.len() as int) =~= entries@);
            Some(paths)
        },
    }
}

/// Name prefixes (lower-cased) of Steam tools that are not games.
pub open spec fn spec_is_steam_tool(name: Seq<char>, install_dir: Seq<char>) -> bool {
    ||| "proton"@.is_prefix_of(lowercase(name))
    ||| "steam linux runtime"@.is_prefix_of(lowercase(name))
    ||| "proton"@.is_prefix_of(lowercase(install_dir))
    ||| "steamlinuxruntime"@.is_prefix_of(lowercase(install_dir))
}

/// Returns `true` if the name/installdir matches known Steam tool patterns
/// (Proton versions, Steam Linux Runtime) rather than an actual game.
pub fn is_steam_tool(name: &str, install_dir: &str) -> (r: bool)
    ensures
        r == spec_is_steam_tool(name@, install_dir@),
{
    let nv = chars_of(name);
    let dv = chars_of(install_dir);
    let name_lower = lowercase_chars(nv.as_slice());
    let dir_lower = lowercase_chars(dv.as_slice());
    let proton = chars_of("proton");
    let runtime_name = chars_of("steam linux runtime");
    let runtime_dir = chars_of("steamlinuxruntime");
    starts_with(name_lower.as_slice(), proton.as_slice())
        || starts_with(name_lower.as_slice(), runtime_name.as_slice())
        || starts_with(dir_lower.as_slice(), proton.as_slice())
        || starts_with(dir_lower.as_slice(), runtime_dir.as_slice())
}

/// `s.parse::<u32>().ok()`.
pub fn parse_u32(s: &str) -> (r: Option<u32>)
    ensures
        r == spec_parse_u32(s@),
{
    let v = chars_of(s);
    assert(v@.subrange(0, v@.len() as int) =~= v@);
    match parse_u64(v.as_slice(), 0, v.len()) {
        Some(n) => if n <= 0xFFFF_FFFFu64 {
            Some(n as u32)
        } else {
            None
        },
        None => None,
    }
}

/// What an `appmanifest_<id>.acf` says about an installed app.
#[derive(Debug, Clone)]
pub struct ManifestEntry {
    /// Display name (`name`).
    pub name: String,
    /// Directory under `steamapps/common` (`installdir`).
    pub install_dir: String,
    /// Steam App ID (`appid`), 0 when absent or not a number.
    pub app_id: u32,
    /// `steamapps/common/<installdir>`.
    pub path: String,
}

/// The app id of a manifest: `appid` parsed as a `u32`, or 0.
pub open spec fn spec_app_id(root: VdfValue) -> u32 {
    match spec_first_str(root, "appid"@) {
        Some(s) => match spec_parse_u32(s) {
            Some(n) => n,
            None => 0,
        },
        None => 0,
    }
}

/// The game a parsed manifest describes: `None` when it lacks a name or an
/// install directory, or names a Steam tool.
pub open spec fn spec_manifest_entry(root: VdfValue, steamapps: Seq<char>) -> Option<(Seq<char>, Seq<char>, u32, Seq<char>)> {
    match (spec_first_str(root, "name"@), spec_first_str(root, "installdir"@)) {
        (Some(name), Some(dir)) => if spec_is_steam_tool(name, dir) {
            None
        } else {
            Some((name, dir, spec_app_id(root), spec_join(spec_join(steamapps, "common"@), dir)))
        },
        _ => None,
    }
}

/// Reads a parsed `appmanifest_<id>.acf`. The caller still checks that the
/// install path exists before it adds the game.
pub fn manifest_entry(root: &VdfValue, steamapps: &str) -> (r: Option<ManifestEntry>)
    ensures
        match spec_manifest_entry(*root, steamapps@) {
            Some((n, d, id, p)) => r matches Some(e) && e.name@ == n && e.install_dir@ == d && e.app_id == id && e.path@ == p,
            None => r is None,
        },
{
    let name = match first_str(root, "name") {
        Some(n) => n,
        None => return None,
    };
    let install_dir = match first_str(root, "installdir") {
        Some(d) => d,
        None => return None,
    };
    let app_id = match first_str(root, "appid") {
        Some(s) => match parse_u32(s.as_str()) {
            Some(n) => n,
            None => 0,
        },
        None => 0,
    };
    if is_steam_tool(name.as_str(), install_dir.as_str()) {
        return None;
    }
    let common = join(steamapps, "common");
    let path = join(common.as_str(), install_dir.as_str());
    Some(ManifestEntry { name, install_dir, app_id, path })
}

/// The value type of `keyvalues-parser`.
#[verifier::external_type_specification]
#[verifier::external_body]
pub struct ExKvValue<'a>(keyvalues_parser::Value<'a>);

/// What `keyvalues_parser::parse` makes of `text`: the top-level value, or
/// `None` when the text is not valid KeyValues.
pub uninterp spec fn kv_parse(text: Seq<char>) -> Option<VdfValue>;

/// Calls `keyvalues_parser::parse` and converts the top-level value it finds;
/// a parse error gives `None`. The contract names the result without
/// restating the KeyValues grammar.
#[verifier::external_body]
pub fn parse_vdf(text: &str) -> (r: Option<VdfValue>)
    ensures
        r == kv_parse(text@),
{
    match keyvalues_parser::parse(text) {
        Ok(doc) => Some(value_of(&doc.value)),
        Err(_) => None,
    }
}

/// Converts a `keyvalues-parser` value into a [`VdfValue`], one for one: each
/// key of an object, in the object's (key) order, with its values in order.
#[verifier::external_body]
fn value_of(v: &keyvalues_parser::Value<'_>) -> VdfValue {
    match v {
        keyvalues_parser::Value::Str(s) => VdfValue::Str(s.to_string()),
        keyvalues_parser::Value::Obj(o) => VdfValue::Obj(
            o.iter().map(|(k, vs)| (k.to_string(), vs.iter().map(value_of).collect())).collect(),
        ),
    }
}

/// Why a `libraryfolders.vdf` could not be read.
#[derive(Debug, Clone, Copy, PartialEq, Eq, Structural)]
pub enum VdfError {
    /// The text is not valid KeyValues.
    Invalid,
    /// The top-level value is not an object.
    RootNotObject,
}

impl VdfError {
    /// The message shown for the error.
    pub fn message(&self) -> (r: &'static str)
        ensures
            r@ == match self {
                VdfError::Invalid => "Invalid VDF"@,
                VdfError::RootNotObject => "VDF root is not an object"@,
            },
    {
        match self {
            VdfError::Invalid => "Invalid VDF",
            VdfError::RootNotObject => "VDF root is not an object",
        }
    }
}

/// Parses the `libraryfolders.vdf` content and returns the library root paths.
pub fn parse_library_folders_vdf(vdf_str: &str) -> (r: Result<Vec<String>, VdfError>)
    ensures
        match kv_parse(vdf_str@) {
            None => r == Err::<Vec<String>, VdfError>(VdfError::Invalid),
            Some(root) => match spec_library_folders(root) {
                Some(ps) => r matches Ok(v) && v@.map_values(|s: String| s@) == ps,
                None => r == Err::<Vec<String>, VdfError>(VdfError::RootNotObject),
            },
        },
{
    match parse_vdf(vdf_str) {
        None => Err(VdfError::Invalid),
        Some(root) => match library_folders(&root) {
            Some(paths) => Ok(paths),
            None => Err(VdfError::RootNotObject),
        },
    }
}

/// Parses the content of an `appmanifest_<id>.acf` found in `steamapps`:
/// `None` for text that is not KeyValues, and as [`manifest_entry`] otherwise.
pub fn parse_appmanifest(content: &str, steamapps: &str) -> (r: Option<ManifestEntry>)
    ensures
        match kv_parse(content@) {
            None => r is None,
            Some(root) => match spec_manifest_entry(root, steamapps@) {
                Some((n, d, id, p)) => r matches Some(e) && e.name@ == n && e.install_dir@ == d && e.app_id == id && e.path@ == p,
                None => r is None,
            },
        },
{
    match parse_vdf(content) {
        None => None,
        Some(root) => manifest_entry(&root, steamapps),
    }
}

/// A directory entry name of the form `appmanifest_*.acf`.
pub open spec fn spec_is_appmanifest_name(name: Seq<char>) -> bool {
    "appmanifest_"@.is_prefix_of(name) && ".acf"@.is_suffix_of(name)
}

/// Returns `true` for a directory entry named `appmanifest_*.acf`.
pub fn is_appmanifest_name(name: &str) -> (r: bool)
    ensures
        r == spec_is_appmanifest_name(name@),
{
    let v = chars_of(name);
    let pre = chars_of("appmanifest_");
    let suf = chars_of(".acf");
    starts_with(v.as_slice(), pre.as_slice()) && ends_with(v.as_slice(), suf.as_slice())
}

/// The places a Steam installation is looked for under `home`, in order.
pub open spec fn spec_steam_root_candidates(home: Seq<char>) -> Seq<Seq<char>> {
    seq![home + "/.local/share/Steam"@, home + "/.steam/steam"@, home + "/.steam/root"@]
}

/// The places a Steam installation is looked for under `home`, in order.
pub fn steam_root_candidates(home: &str) -> (r: Vec<String>)
    ensures
        r@.map_values(|s: String| s@) == spec_steam_root_candidates(home@),
{
    let mut a = home.to_owned();
    push_str(&mut a, "/.local/share/Steam");
    let mut b = home.to_owned();
    push_str(&mut b, "/.steam/steam");
    let mut c = home.to_owned();
    push_str(&mut c, "/.steam/root");
    let r = vec![a, b, c];
    assert(r@.map_values(|s: String| s@) =~= spec_steam_root_candidates(home@));
    r
}

/// Where Steam lists its libraries, relative to the Steam root.
pub const LIBRARY_FOLDERS_FILE: &'static str = "steamapps/libraryfolders.vdf";

/// `steam_root/steamapps/libraryfolders.vdf`.
pub fn library_folders_path(steam_root: &str) -> (r: String)
    ensures
        r@ == spec_join(steam_root@, LIBRARY_FOLDERS_FILE@),
{
    join(steam_root, LIBRARY_FOLDERS_FILE)
}

/// The little-endian `u32` at `data[at..at + 4]`.
pub open spec fn le_u32(data: Seq<u8>, at: int) -> int {
    data[at] as int + 256 * data[at + 1] as int + 65536 * data[at + 2] as int + 16777216 * data[at + 3] as int
}

/// The little-endian `u16` at `data[at..at + 2]`.
pub open spec fn le_u16(data: Seq<u8>, at: int) -> int {
    data[at] as int + 256 * data[at + 1] as int
}

/// PE machine type of 32-bit x86.
pub const MACHINE_X86: u16 = 0x014c;

/// PE machine type of x86-64.
pub const MACHINE_X86_64: u16 = 0x8664;

/// The architecture a PE file states, read from the first bytes of the file:
/// the `MZ` header, the PE offset at `0x3c`, the `PE\0\0` signature there and
/// the machine type after it.
pub open spec fn spec_exe_arch(data: Seq<u8>) -> Option<ExeArch> {
    if data.len() < 64 || data[0] != 0x4d || data[1] != 0x5a {
        None
    } else {
        let off = le_u32(data, 60);
        if data.len() < off + 6 || data[off] != 0x50 || data[off + 1] != 0x45 || data[off + 2] != 0
            || data[off + 3] != 0 {
            None
        } else if le_u16(data, off + 4) == MACHINE_X86 {
            Some(ExeArch::X86)
        } else if le_u16(data, off + 4) == MACHINE_X86_64 {
            Some(ExeArch::X86_64)
        } else {
            None
        }
    }
}

/// Detects the architecture of a PE `.exe` from its leading bytes.
///
/// Returns `None` when the bytes are too short or not a PE header.
pub fn exe_arch_from_bytes(data: &[u8]) -> (r: Option<ExeArch>)
    ensures
        r == spec_exe_arch(data@),
{
    if data.len() < 64 || data[0] != 0x4d || data[1] != 0x5a {
        return None;
    }
    let off: u64 = data[60] as u64 + 256 * (data[61] as u64) + 65536 * (data[62] as u64) + 16777216 * (data[63] as u64);
    assert(off == le_u32(data@, 60));
    if (data.len() as u64) < off + 6 {
        return None;
    }
    let o = off as usize;
    if data[o] != 0x50 || data[o + 1] != 0x45 || data[o + 2] != 0 || data[o + 3] != 0 {
        return None;
    }
    let machine: u16 = data[o + 4] as u16 + 256 * (data[o + 5] as u16);
    if machine == MACHINE_X86 {
        Some(ExeArch::X86)
    } else if machine == MACHINE_X86_64 {
        Some(ExeArch::X86_64)
    } else {
        None
    }
}


/// Law: the PE offset is the whole little-endian 32-bit field at `0x3c`. For
/// any buffer that starts with `MZ`, holds the offset `off` in its four bytes
/// at 60..64, and holds `PE\0\0` at `off` followed by a machine type, the
/// result is the architecture of that machine type, wherever the header is.
pub proof fn lemma_exe_arch_reads_full_offset(data: Seq<u8>, off: u32, machine_lo: u8, machine_hi: u8)
    requires
        data.len() >= 64,
        data[0] == 0x4d && data[1] == 0x5a,
        data[60] == (off % 256) as u8,
        data[61] == ((off / 256) % 256) as u8,
        data[62] == ((off / 65536) % 256) as u8,
        data[63] == (off / 16777216) as u8,
        off + 6 <= data.len(),
        data[off as int] == 0x50 && data[off + 1] == 0x45 && data[off + 2] == 0 && data[off + 3] == 0,
        data[off + 4] == machine_lo && data[off + 5] == machine_hi,
    ensures
        machine_lo == 0x64 && machine_hi == 0x86 ==> spec_exe_arch(data) == Some(ExeArch::X86_64),
        machine_lo == 0x4c && machine_hi == 0x01 ==> spec_exe_arch(data) == Some(ExeArch::X86),
        !(machine_lo == 0x64 && machine_hi == 0x86) && !(machine_lo == 0x4c && machine_hi == 0x01)
            ==> spec_exe_arch(data) is None,
{
    assert(off == (off % 256) + 256 * ((off / 256) % 256) + 65536 * ((off / 65536) % 256) + 16777216 * (off / 16777216))
        by (bit_vector);
    assert(off / 16777216 < 256) by (bit_vector);
    assert(le_u32(data, 60) == off);
    assert(le_u16(data, off + 4) == machine_lo + 256 * machine_hi);
}

} // verus!
