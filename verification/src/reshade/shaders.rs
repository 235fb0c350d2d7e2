//! Shader repository layout: the merged directories, the per-game shader
//! directories, and which repositories feed a merge.
use vstd::prelude::*;

use crate::reshade::config::contains_name;
use crate::reshade::paths::{
    join, spec_join, GAME_SHADERS_DIR, GAME_SHADER_DIR_PREFIX, MERGED_DIR, RESHADE_SHADERS_DIR,
};
use crate::reshade::reshade::names;
use crate::text::{push_str, str_eq};
use vstd::string::StringSliceAdditionalSpecFns;
use vstd::utf8::{decode_utf8, encode_utf8, is_char_boundary};

verus! {

/// Name of the shader sub-directory of a repository or merged tree.
pub const SHADERS_SUBDIR: &'static str = "Shaders";

/// Name of the texture sub-directory of a repository or merged tree.
pub const TEXTURES_SUBDIR: &'static str = "Textures";

/// `base/ReShade_shaders/Merged/Shaders`.
pub open spec fn spec_merged_shaders_dir(base: Seq<char>) -> Seq<char> {
    spec_join(spec_join(spec_join(base, RESHADE_SHADERS_DIR@), MERGED_DIR@), SHADERS_SUBDIR@)
}

/// `base/ReShade_shaders/Merged/Textures`.
pub open spec fn spec_merged_textures_dir(base: Seq<char>) -> Seq<char> {
    spec_join(spec_join(spec_join(base, RESHADE_SHADERS_DIR@), MERGED_DIR@), TEXTURES_SUBDIR@)
}

/// Returns the path to the merged shaders directory.
pub fn merged_shaders_dir(base: &str) -> (r: String)
    ensures
        r@ == spec_merged_shaders_dir(base@),
{
    let a = join(base, RESHADE_SHADERS_DIR);
    let b = join(a.as_str(), MERGED_DIR);
    join(b.as_str(), SHADERS_SUBDIR)
}

/// Returns the path to the merged textures directory.
pub fn merged_textures_dir(base: &str) -> (r: String)
    ensures
        r@ == spec_merged_textures_dir(base@),
{
    let a = join(base, RESHADE_SHADERS_DIR);
    let b = join(a.as_str(), MERGED_DIR);
    join(b.as_str(), TEXTURES_SUBDIR)
}

/// The directories a rebuild of the merged tree of `repos_dir` fills with
/// links: `repos_dir/Merged/Shaders` and `repos_dir/Merged/Textures`.
pub open spec fn spec_merge_target_dirs(repos_dir: Seq<char>) -> (Seq<char>, Seq<char>) {
    (
        spec_join(spec_join(repos_dir, MERGED_DIR@), SHADERS_SUBDIR@),
        spec_join(spec_join(repos_dir, MERGED_DIR@), TEXTURES_SUBDIR@),
    )
}

/// The shader and texture directories that rebuilding the merged tree of
/// `repos_dir` fills.
pub fn merge_target_dirs(repos_dir: &str) -> (r: (String, String))
    ensures
        (r.0@, r.1@) == spec_merge_target_dirs(repos_dir@),
{
    let m = join(repos_dir, MERGED_DIR);
    (join(m.as_str(), SHADERS_SUBDIR), join(m.as_str(), TEXTURES_SUBDIR))
}

/// Law: the directories that the rebuild of `base/ReShade_shaders` fills are
/// the merged shader and texture directories of `base`.
pub proof fn lemma_rebuild_fills_merged_dirs(base: Seq<char>)
    ensures
        spec_merge_target_dirs(spec_join(base, RESHADE_SHADERS_DIR@)) == (
            spec_merged_shaders_dir(base),
            spec_merged_textures_dir(base),
        ),
{
}

/// Number of bytes of the game id kept in the per-game directory name.
pub const SHORT_ID_BYTES: usize = 16;

/// The byte length of the id prefix: at most [`SHORT_ID_BYTES`].
pub open spec fn short_id_len(game_id: &str) -> int {
    if game_id.spec_bytes().len() < SHORT_ID_BYTES {
        game_id.spec_bytes().len() as int
    } else {
        SHORT_ID_BYTES as int
    }
}

/// The id prefix `&game_id[..game_id.len().min(16)]`.
pub open spec fn spec_short_id(game_id: &str) -> Seq<char> {
    decode_utf8(game_id.spec_bytes().subrange(0, short_id_len(game_id)))
}

/// `data_dir/Game_shaders/game-<short id>`.
pub open spec fn spec_game_merged_dir(data_dir: Seq<char>, game_id: &str) -> Seq<char> {
    spec_join(spec_join(data_dir, GAME_SHADERS_DIR@), GAME_SHADER_DIR_PREFIX@ + spec_short_id(game_id))
}

/// Returns the path to the per-game merged shader directory.
///
/// Uses the first 16 bytes of `game_id` (64 bits of the SHA-512 hex) to keep
/// directory names short. The directory may or may not exist yet.
pub fn game_merged_dir(data_dir: &str, game_id: &str) -> (r: String)
    requires
        game_id.spec_bytes().len() <= usize::MAX,
        is_char_boundary(game_id.spec_bytes(), short_id_len(game_id)),
    ensures
        r@ == spec_game_merged_dir(data_dir@, game_id),
{
    let n = if game_id.len() < SHORT_ID_BYTES {
        game_id.len()
    } else {
        SHORT_ID_BYTES
    };
    proof {
        vstd::utf8::encode_utf8_valid_utf8(game_id@);
        assert(n == short_id_len(game_id));
    }
    let (short, _) = game_id.split_at(n);
    proof {
        vstd::utf8::encode_utf8_decode_utf8(short@);
        assert(short.spec_bytes() == encode_utf8(short@));
        assert(spec_short_id(game_id) == decode_utf8(short.spec_bytes()));
        assert(spec_short_id(game_id) == short@);
    }
    let mut name = GAME_SHADER_DIR_PREFIX.to_owned();
    push_str(&mut name, short);
    let d = join(data_dir, GAME_SHADERS_DIR);
    join(d.as_str(), name.as_str())
}

/// A repository directory that feeds a merge: not the merged tree itself and
/// not disabled.
pub open spec fn feeds_merge(name: Seq<char>, disabled: Seq<Seq<char>>) -> bool {
    name != MERGED_DIR@ && !disabled.contains(name)
}

/// The repository directories, of those listed in `entries`, whose shaders
/// and textures go into a merge, in listing order.
pub fn merge_sources(entries: &Vec<String>, disabled: &Vec<String>) -> (r: Vec<String>)
    ensures
        names(r@) == names(entries@).filter(|n: Seq<char>| feeds_merge(n, names(disabled@))),
{
    let ghost pred = |n: Seq<char>| feeds_merge(n, names(disabled@));
    let mut out: Vec<String> = Vec::new();
    let mut i: usize = 0;
    assert(names(entries@.take(0)) =~= Seq::<Seq<char>>::empty());
    reveal_with_fuel(Seq::filter, 1);
    while i < entries.len()
        invariant
            i <= entries@.len(),
            names(out@) == names(entries@.take(i as int)).filter(pred),
            pred == (|n: Seq<char>| feeds_merge(n, names(disabled@))),
        decreases entries.len() - i,
    {
        let ghost prefix = names(entries@.take(i as int));
        assert(names(entries@.take(i + 1)) =~= prefix.push(entries@[i as int]@));
        proof {
            prefix.lemma_filter_push(entries@[i as int]@, pred);
        }
        let name = entries[i].as_str();
        if !str_eq(name, MERGED_DIR) && !contains_name(disabled, name) {
            out.push(entries[i].clone());
            assert(names(out@) =~= prefix.filter(pred).push(entries@[i as int]@));
        }
        i = i + 1;
    }
    assert(entries@.take(entries@.len() as int) =~= entries@);
    out
}

/// Law: a disabled repository, and the merged tree itself, never feed a merge.
pub proof fn lemma_disabled_never_merged(entries: Seq<Seq<char>>, disabled: Seq<Seq<char>>, name: Seq<char>)
    requires
        disabled.contains(name) || name == MERGED_DIR@,
    ensures
        !entries.filter(|n: Seq<char>| feeds_merge(n, disabled)).contains(name),
{
    let pred = |n: Seq<char>| feeds_merge(n, disabled);
    if entries.filter(pred).contains(name) {
        let j = choose|j: int| 0 <= j < entries.filter(pred).len() && entries.filter(pred)[j] == name;
        entries.lemma_filter_pred(pred, j);
    }
}


/// A file found in a repository's `Shaders` or `Textures` directory: its file
/// name and its full path.
pub open spec fn file_view(f: (String, String)) -> (Seq<char>, Seq<char>) {
    (f.0@, f.1@)
}

/// The plain values of a list of files.
pub open spec fn file_views(s: Seq<(String, String)>) -> Seq<(Seq<char>, Seq<char>)> {
    s.map_values(|f: (String, String)| file_view(f))
}

/// The names a list of links creates.
pub open spec fn link_names(s: Seq<(Seq<char>, Seq<char>)>) -> Seq<Seq<char>> {
    s.map_values(|f: (Seq<char>, Seq<char>)| f.0)
}

/// The links that merging the first `n` of `files` into a directory already
/// holding `existing` creates, in order: a file is linked under its name
/// unless that name is already taken, on disk or by an earlier file (the first
/// repository wins, and nothing present is replaced).
pub open spec fn spec_merge_links(existing: Seq<Seq<char>>, files: Seq<(Seq<char>, Seq<char>)>, n: nat) -> Seq<(Seq<char>, Seq<char>)>
    decreases n,
{
    if n == 0 {
        Seq::empty()
    } else {
        let prev = spec_merge_links(existing, files, (n - 1) as nat);
        let f = files[n - 1];
        if existing.contains(f.0) || link_names(prev).contains(f.0) {
            prev
        } else {
            prev.push(f)
        }
    }
}

/// Plans the links of a merge: `files` are the files of the enabled
/// repositories' directories, in merge order, and `existing` the names already
/// in the destination directory. Returns `(name, source path)` for each link to
/// create, as [`spec_merge_links`] states.
pub fn merge_links(existing: &Vec<String>, files: &Vec<(String, String)>) -> (r: Vec<(String, String)>)
    ensures
        file_views(r@) == spec_merge_links(names(existing@), file_views(files@), files@.len() as nat),
{
    let ghost fv = file_views(files@);
    let mut out: Vec<(String, String)> = Vec::new();
    let mut taken: Vec<String> = Vec::new();
    let mut i: usize = 0;
    assert(file_views(out@) =~= Seq::<(Seq<char>, Seq<char>)>::empty());
    assert(names(taken@) =~= Seq::<Seq<char>>::empty());
    while i < files.len()
        invariant
            i <= files@.len(),
            fv == file_views(files@),
            file_views(out@) == spec_merge_links(names(existing@), fv, i as nat),
            names(taken@) == link_names(file_views(out@)),
        decreases files.len() - i,
    {
        let name = files[i].0.as_str();
        assert(fv[i as int] == file_view(files@[i as int]));
        if !contains_name(existing, name) && !contains_name(&taken, name) {
            let ghost o0 = file_views(out@);
            let ghost t0 = taken@;
            out.push((files[i].0.clone(), files[i].1.clone()));
            taken.push(files[i].0.clone());
            assert(file_views(out@) =~= o0.push(fv[i as int]));
            assert(names(taken@) =~= names(t0).push(fv[i as int].0));
            assert(link_names(o0.push(fv[i as int])) =~= link_names(o0).push(fv[i as int].0));
        }
        i = i + 1;
    }
    out
}

/// Law: a merge never links a name twice and never a name already present.
pub proof fn lemma_merge_links_fresh(existing: Seq<Seq<char>>, files: Seq<(Seq<char>, Seq<char>)>, n: nat)
    ensures
        link_names(spec_merge_links(existing, files, n)).no_duplicates(),
        forall|i: int| 0 <= i < spec_merge_links(existing, files, n).len()
            ==> !existing.contains(#[trigger] spec_merge_links(existing, files, n)[i].0),
    decreases n,
{
    if n > 0 {
        lemma_merge_links_fresh(existing, files, (n - 1) as nat);
        let prev = spec_merge_links(existing, files, (n - 1) as nat);
        let f = files[n - 1];
        if !(existing.contains(f.0) || link_names(prev).contains(f.0)) {
            assert(link_names(prev.push(f)) =~= link_names(prev).push(f.0));
            assert forall|i: int| 0 <= i < prev.push(f).len() implies !existing.contains(#[trigger] prev.push(f)[i].0) by {
                if i < prev.len() {
                    assert(prev.push(f)[i] == prev[i]);
                }
            }
        }
    }
}

/// Law: every file whose name is neither present nor taken by an earlier file
/// is linked, to its own path.
pub proof fn lemma_merge_links_first_wins(existing: Seq<Seq<char>>, files: Seq<(Seq<char>, Seq<char>)>, j: int)
    requires
        0 <= j < files.len(),
        !existing.contains(files[j].0),
        forall|k: int| 0 <= k < j ==> (#[trigger] files[k]).0 != files[j].0,
    ensures
        spec_merge_links(existing, files, files.len() as nat).contains(files[j]),
{
    lemma_merge_links_sub(existing, files, (j + 1) as nat, files.len() as nat);
    let prev = spec_merge_links(existing, files, j as nat);
    lemma_merge_links_names_from(existing, files, j as nat);
    if link_names(prev).contains(files[j].0) {
        let i = choose|i: int| 0 <= i < link_names(prev).len() && link_names(prev)[i] == files[j].0;
        assert(link_names(prev)[i] == prev[i].0);
        let k = choose|k: int| 0 <= k < j && #[trigger] prev[i] == files[k];
        assert(files[k].0 != files[j].0);
    }
    let next = spec_merge_links(existing, files, (j + 1) as nat);
    assert(next == prev.push(files[j]));
    assert(next[prev.len() as int] == files[j]);
    let full = spec_merge_links(existing, files, files.len() as nat);
    assert(full[prev.len() as int] == next[prev.len() as int]);
}

proof fn lemma_merge_links_names_from(existing: Seq<Seq<char>>, files: Seq<(Seq<char>, Seq<char>)>, n: nat)
    requires
        n <= files.len(),
    ensures
        forall|i: int| 0 <= i < spec_merge_links(existing, files, n).len() ==> exists|k: int|
            0 <= k < n && #[trigger] spec_merge_links(existing, files, n)[i] == files[k],
    decreases n,
{
    if n > 0 {
        lemma_merge_links_names_from(existing, files, (n - 1) as nat);
        let prev = spec_merge_links(existing, files, (n - 1) as nat);
        let cur = spec_merge_links(existing, files, n);
        assert forall|i: int| 0 <= i < cur.len() implies exists|k: int| 0 <= k < n && #[trigger] cur[i] == files[k] by {
            if i < prev.len() {
                assert(cur[i] == prev[i]);
                let k = choose|k: int| 0 <= k < n - 1 && prev[i] == files[k];
                assert(cur[i] == files[k]);
            } else {
                assert(cur[i] == files[n - 1]);
            }
        }
    }
}

proof fn lemma_merge_links_sub(existing: Seq<Seq<char>>, files: Seq<(Seq<char>, Seq<char>)>, m: nat, n: nat)
    requires
        m <= n,
    ensures
        spec_merge_links(existing, files, m).len() <= spec_merge_links(existing, files, n).len(),
        forall|i: int| 0 <= i < spec_merge_links(existing, files, m).len() ==>
            #[trigger] spec_merge_links(existing, files, n)[i] == spec_merge_links(existing, files, m)[i],
    decreases n - m,
{
    if m < n {
        lemma_merge_links_sub(existing, files, m, (n - 1) as nat);
    }
}

} // verus!
