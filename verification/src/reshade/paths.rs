//! Canonical path names of the iris data directory layout, and the path
//! arithmetic the domain layer performs on them.
//!
//! Paths are held as `String`s; [`join`] and the component functions follow the
//! Unix rules of `std::path::Path` for UTF-8 paths.
use vstd::prelude::*;

use crate::text::{chars_eq, chars_of, opt_chars, push_char, push_str, string_of};

verus! {

/// Directory that holds all cloned shader repositories and the merged tree.
pub const RESHADE_SHADERS_DIR: &'static str = "ReShade_shaders";

/// Sub-directory inside [`RESHADE_SHADERS_DIR`] that contains the merged symlink tree.
pub const MERGED_DIR: &'static str = "Merged";

/// File name of the JSON cache that records the latest/installed `ReShade` versions.
pub const RESHADE_STATE_FILE: &'static str = "reshade_state.json";

/// File name of the JSON file that stores `GlobalConfig`.
pub const CONFIG_FILE: &'static str = "config.json";

/// File name of the JSON file that stores the saved game list.
pub const GAMES_FILE: &'static str = "games.json";

/// Directory that holds the per-game shader trees.
pub const GAME_SHADERS_DIR: &'static str = "Game_shaders";

/// Prefix of each per-game shader directory name.
pub const GAME_SHADER_DIR_PREFIX: &'static str = "game-";

/// `base.join(seg)` on Unix: an absolute `seg` replaces `base`; otherwise a
/// separator is inserted unless `base` is empty or already ends with one.
pub open spec fn spec_join(base: Seq<char>, seg: Seq<char>) -> Seq<char> {
    if seg.len() > 0 && seg[0] == '/' {
        seg
    } else if base.len() > 0 && base.last() != '/' {
        base + seq!['/'] + seg
    } else {
        base + seg
    }
}

/// Joins `seg` onto `base` as `Path::join` does.
pub fn join(base: &str, seg: &str) -> (r: String)
    ensures
        r@ == spec_join(base@, seg@),
{
    let sv = chars_of(seg);
    if sv.len() > 0 && sv[0] == '/' {
        return string_of(sv.as_slice());
    }
    let bv = chars_of(base);
    let mut r = string_of(bv.as_slice());
    if bv.len() > 0 && bv[bv.len() - 1] != '/' {
        push_char(&mut r, '/');
    }
    push_str(&mut r, seg);
    r
}

/// The pieces of `s` between `/` separators (empty pieces included).
pub open spec fn pieces(s: Seq<char>) -> Seq<Seq<char>>
    decreases s.len(),
{
    if s.len() == 0 {
        seq![Seq::<char>::empty()]
    } else {
        let p = pieces(s.drop_last());
        if s.last() == '/' {
            p.push(Seq::<char>::empty())
        } else {
            p.update(p.len() - 1, p.last().push(s.last()))
        }
    }
}

/// A piece that names something: neither empty nor `.`.
pub open spec fn is_named(p: Seq<char>) -> bool {
    p.len() > 0 && p != seq!['.']
}

/// The named components of `s`: what `Path::components` yields, less the root
/// and `.` components.
pub open spec fn named_components(s: Seq<char>) -> Seq<Seq<char>> {
    pieces(s).filter(|p: Seq<char>| is_named(p))
}

/// `path.file_name()`: the last component, unless it is `..` or there is none.
pub open spec fn spec_file_name(s: Seq<char>) -> Option<Seq<char>> {
    let cs = named_components(s);
    if cs.len() >= 1 && cs.last() != seq!['.', '.'] {
        Some(cs.last())
    } else {
        None
    }
}

/// `path.parent()?.file_name()`: the name of the directory that holds the last component.
pub open spec fn spec_parent_name(s: Seq<char>) -> Option<Seq<char>> {
    let cs = named_components(s);
    if cs.len() >= 2 && cs[cs.len() - 2] != seq!['.', '.'] {
        Some(cs[cs.len() - 2])
    } else {
        None
    }
}

/// The extension of a file name as `Path::extension` computes it: the text after
/// the last `.`, unless there is no `.` or the only `.` starts the name.
pub open spec fn spec_extension(name: Seq<char>) -> Option<Seq<char>> {
    if name == seq!['.', '.'] {
        None
    } else if exists|k: int| 0 < k < name.len() && name[k] == '.' {
        let k = choose|k: int|
            0 < k < name.len() && name[k] == '.' && forall|j: int|
                k < j < name.len() ==> name[j] != '.';
        Some(name.subrange(k + 1, name.len() as int))
    } else {
        None
    }
}

proof fn lemma_pieces_nonempty(s: Seq<char>)
    ensures
        pieces(s).len() >= 1,
    decreases s.len(),
{
    if s.len() > 0 {
        lemma_pieces_nonempty(s.drop_last());
    }
}

/// The plain values of character vectors.
pub open spec fn comp_views(s: Seq<Vec<char>>) -> Seq<Seq<char>> {
    s.map_values(|v: Vec<char>| v@)
}

/// The named components of `s`, in order.
pub fn components(s: &str) -> (r: Vec<Vec<char>>)
    ensures
        comp_views(r@) == named_components(s@),
{
    let v = chars_of(s);
    let mut out: Vec<Vec<char>> = Vec::new();
    let mut cur: Vec<char> = Vec::new();
    let ghost mut done: Seq<Seq<char>> = Seq::empty();
    let ghost pred = |p: Seq<char>| is_named(p);
    let mut i: usize = 0;
    assert(v@.take(0) =~= Seq::<char>::empty());
    assert(done.push(cur@) =~= seq![Seq::<char>::empty()]);
    reveal_with_fuel(Seq::filter, 1);
    while i < v.len()
        invariant
            i <= v@.len(),
            pieces(v@.take(i as int)) == done.push(cur@),
            comp_views(out@) == done.filter(pred),
            pred == (|p: Seq<char>| is_named(p)),
        decreases v.len() - i,
    {
        let c = v[i];
        let ghost before = v@.take(i as int);
        assert(v@.take(i + 1).drop_last() =~= before);
        if c == '/' {
            proof {
                assert(done.push(cur@).filter(pred) == (if pred(cur@) { done.filter(pred).push(cur@) } else { done.filter(pred) })) by {
                    reveal(Seq::filter);
                    assert(done.push(cur@).drop_last() =~= done);
                }
            }
            if cur.len() > 0 && !(cur.len() == 1 && cur[0] == '.') {
                assert(pred(cur@)) by {
                    if cur@ == seq!['.'] {
                        assert(cur@.len() == 1 && cur@[0] == '.');
                    }
                }
                let done_piece = cur.clone();
                out.push(done_piece);
                assert(comp_views(out@) =~= done.filter(pred).push(cur@));
            } else {
                if cur.len() == 1 {
                    assert(cur@ =~= seq!['.']);
                }
                assert(!pred(cur@));
            }
            proof {
                done = done.push(cur@);
            }
            cur = Vec::new();
        } else {
            let ghost old_cur = cur@;
            cur.push(c);
            assert(done.push(old_cur).update(done.len() as int, old_cur.push(c)) =~= done.push(cur@));
        }
        i = i + 1;
    }
    assert(v@.take(v@.len() as int) =~= v@);
    // the last piece
    proof {
        assert(done.push(cur@).filter(pred) == (if pred(cur@) { done.filter(pred).push(cur@) } else { done.filter(pred) })) by {
            reveal(Seq::filter);
            assert(done.push(cur@).drop_last() =~= done);
        }
    }
    if cur.len() > 0 && !(cur.len() == 1 && cur[0] == '.') {
        assert(pred(cur@)) by {
            if cur@ == seq!['.'] {
                assert(cur@.len() == 1 && cur@[0] == '.');
            }
        }
        let last_piece = cur.clone();
        out.push(last_piece);
        assert(comp_views(out@) =~= done.filter(pred).push(cur@));
    } else {
        if cur.len() == 1 {
            assert(cur@ =~= seq!['.']);
        }
        assert(!pred(cur@));
    }
    out
}

/// The path starts at the root.
pub open spec fn has_root(s: Seq<char>) -> bool {
    s.len() > 0 && s[0] == '/'
}

/// A relative path that starts with a `.` component (`.` alone or `./`), which
/// `Path::components` keeps.
pub open spec fn leading_cur_dir(s: Seq<char>) -> bool {
    s.len() > 0 && s[0] == '.' && (s.len() == 1 || s[1] == '/')
}

/// What `Path` equality compares: the root, a leading `.`, and the named components.
pub open spec fn path_key(s: Seq<char>) -> (bool, bool, Seq<Seq<char>>) {
    (has_root(s), leading_cur_dir(s), named_components(s))
}

/// `Path::new(a) == Path::new(b)`: the two paths have the same components.
pub fn path_eq(a: &str, b: &str) -> (r: bool)
    ensures
        r == (path_key(a@) == path_key(b@)),
{
    let av = chars_of(a);
    let bv = chars_of(b);
    let a_root = av.len() > 0 && av[0] == '/';
    let b_root = bv.len() > 0 && bv[0] == '/';
    let a_dot = av.len() > 0 && av[0] == '.' && (av.len() == 1 || av[1] == '/');
    let b_dot = bv.len() > 0 && bv[0] == '.' && (bv.len() == 1 || bv[1] == '/');
    if a_root != b_root || a_dot != b_dot {
        return false;
    }
    let ac = components(a);
    let bc = components(b);
    let ghost am = comp_views(ac@);
    let ghost bm = comp_views(bc@);
    if ac.len() != bc.len() {
        assert(am.len() != bm.len());
        return false;
    }
    let mut i: usize = 0;
    while i < ac.len()
        invariant
            ac@.len() == bc@.len(),
            am == comp_views(ac@),
            bm == comp_views(bc@),
            am == named_components(a@),
            bm == named_components(b@),
            i <= ac@.len(),
            forall|j: int| 0 <= j < i ==> am[j] == bm[j],
        decreases ac.len() - i,
    {
        if !chars_eq(ac[i].as_slice(), bc[i].as_slice()) {
            assert(am[i as int] != bm[i as int]);
            return false;
        }
        i = i + 1;
    }
    assert(am =~= bm);
    true
}

/// `Path::parent` on the path `p`, as std computes it.
pub uninterp spec fn std_path_parent(p: Seq<char>) -> Option<Seq<char>>;

/// Calls `std::path::Path::parent` on a UTF-8 path: the path without its final
/// component, `None` for the root or the empty path. The contract names the
/// result without restating std's rules.
#[verifier::external_body]
pub fn path_parent(p: &str) -> (r: Option<String>)
    ensures
        opt_chars(r) == std_path_parent(p@),
{
    std::path::Path::new(p).parent().map(|q| q.to_string_lossy().into_owned())
}

/// `v` is exactly `..`.
fn is_dot_dot(v: &Vec<char>) -> (r: bool)
    ensures
        r == (v@ == seq!['.', '.']),
{
    let r = v.len() == 2 && v[0] == '.' && v[1] == '.';
    proof {
        if v@ == seq!['.', '.'] {
            assert(v@.len() == 2 && v@[0] == '.' && v@[1] == '.');
        }
        if r {
            assert(v@ =~= seq!['.', '.']);
        }
    }
    r
}

/// `Path::new(s).file_name()`.
pub fn file_name(s: &str) -> (r: Option<String>)
    ensures
        r matches Some(n) ==> spec_file_name(s@) == Some(n@),
        r is None ==> spec_file_name(s@) is None,
{
    let cs = components(s);
    let ghost m = comp_views(cs@);
    if cs.len() >= 1 {
        let last = &cs[cs.len() - 1];
        assert(m[m.len() - 1] == last@);
        if !is_dot_dot(last) {
            return Some(string_of(last.as_slice()));
        }
    }
    None
}

/// `Path::new(s).parent()?.file_name()`.
pub fn parent_name(s: &str) -> (r: Option<String>)
    ensures
        r matches Some(n) ==> spec_parent_name(s@) == Some(n@),
        r is None ==> spec_parent_name(s@) is None,
{
    let cs = components(s);
    let ghost m = comp_views(cs@);
    if cs.len() >= 2 {
        let p = &cs[cs.len() - 2];
        assert(m[m.len() - 2] == p@);
        if !is_dot_dot(p) {
            return Some(string_of(p.as_slice()));
        }
    }
    None
}

/// The extension of the file name `name`, as `Path::extension` computes it.
pub fn extension(name: &[char]) -> (r: Option<Vec<char>>)
    ensures
        r matches Some(e) ==> spec_extension(name@) == Some(e@),
        r is None ==> spec_extension(name@) is None,
{
    if name.len() == 2 && name[0] == '.' && name[1] == '.' {
        assert(name@ =~= seq!['.', '.']);
        return None;
    }
    assert(name@ != seq!['.', '.']) by {
        if name@ == seq!['.', '.'] {
            assert(name@.len() == 2 && name@[0] == '.' && name@[1] == '.');
        }
    }
    let mut k: usize = name.len();
    while k > 0 && name[k - 1] != '.'
        invariant
            k <= name@.len(),
            forall|j: int| k <= j < name@.len() ==> name@[j] != '.',
        decreases k,
    {
        k = k - 1;
    }
    if k <= 1 {
        // no dot, or the only dot starts the name
        assert(!exists|j: int| 0 < j < name@.len() && name@[j] == '.') by {
            if k == 1 {
            }
        }
        return None;
    }
    let dot = k - 1;
    assert(0 < dot < name@.len() && name@[dot as int] == '.');
    let e = crate::text::slice_to_vec(name, k, name.len());
    proof {
        let kk = choose|kk: int|
            0 < kk < name@.len() && name@[kk] == '.' && forall|j: int|
                kk < j < name@.len() ==> name@[j] != '.';
        assert(kk == dot) by {
            if kk < dot {
            } else if kk > dot {
            }
        }
    }
    Some(e)
}

} // verus!
