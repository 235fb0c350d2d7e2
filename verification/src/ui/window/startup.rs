//! What the main window computes when it starts and when it routes a request:
//! the game list with newly discovered Steam games, the custom repositories,
//! the downloaded repositories shown for a game, the versions in use, and the
//! latest version after the startup check.
use vstd::prelude::*;

use crate::reshade::cache::UpdateCache;
use crate::reshade::catalog::{entry_repo, CatalogEntry};
use crate::reshade::config::{clone_repo, contains_name, repo_view, repo_views, ShaderRepo};
use crate::reshade::game::{Game, InstallStatus};
use crate::reshade::paths::{components, comp_views, join, path_key, spec_join, GAME_SHADER_DIR_PREFIX};
use crate::reshade::reshade::{names, RESHADE_DIR};
use crate::text::{chars_eq, chars_of, opt_chars, starts_with, str_eq, string_of};
use crate::ui::game_list::game_ids;
use crate::ui::shader_catalog::{entry_names, entry_views};

verus! {

broadcast use vstd::seq_lib::lemma_seq_contains_after_push;

/// The index of the first game of `games` with the identifier `id`.
pub open spec fn first_with_id(games: Seq<Game>, id: Seq<char>, i: int) -> bool {
    &&& 0 <= i < games.len()
    &&& games[i].id@ == id
    &&& forall|j: int| 0 <= j < i ==> (#[trigger] games[j]).id@ != id
}

/// Finds the first game with the identifier `id`.
pub fn find_game(games: &Vec<Game>, id: &str) -> (r: Option<usize>)
    ensures
        match r {
            Some(i) => first_with_id(games@, id@, i as int) && game_ids(games@).contains(id@)
                && forall|k: int| #[trigger] first_with_id(games@, id@, k) ==> k == i,
            None => !game_ids(games@).contains(id@) && forall|k: int| !(#[trigger] first_with_id(games@, id@, k)),
        },
{
    let mut i: usize = 0;
    while i < games.len()
        invariant
            i <= games@.len(),
            forall|j: int| 0 <= j < i ==> (#[trigger] games@[j]).id@ != id@,
        decreases games.len() - i,
    {
        if str_eq(games[i].id.as_str(), id) {
            assert(game_ids(games@)[i as int] == id@);
            assert forall|k: int| #[trigger] first_with_id(games@, id@, k) implies k == i by {
                if k > i {
                    assert(games@[i as int].id@ == id@);
                }
            }
            return Some(i);
        }
        i = i + 1;
    }
    assert(!game_ids(games@).contains(id@)) by {
        if game_ids(games@).contains(id@) {
            let k = choose|k: int| 0 <= k < game_ids(games@).len() && game_ids(games@)[k] == id@;
            assert(games@[k].id@ == id@);
        }
    }
    assert forall|k: int| !(#[trigger] first_with_id(games@, id@, k)) by {
        if first_with_id(games@, id@, k) {
            assert(game_ids(games@)[k] == id@);
        }
    }
    None
}

/// The game list after adding, in order, each Steam game whose identifier is
/// not in it yet.
pub open spec fn spec_merged_games(games: Seq<Game>, steam: Seq<Game>) -> Seq<Game>
    decreases steam.len(),
{
    if steam.len() == 0 {
        games
    } else {
        let prev = spec_merged_games(games, steam.drop_last());
        if game_ids(prev).contains(steam.last().id@) {
            prev
        } else {
            prev.push(steam.last())
        }
    }
}

/// The identifiers and directories of the Steam games that were added, in order.
pub open spec fn spec_new_steam(games: Seq<Game>, steam: Seq<Game>) -> Seq<(Seq<char>, Seq<char>)>
    decreases steam.len(),
{
    if steam.len() == 0 {
        Seq::empty()
    } else {
        let prev = spec_merged_games(games, steam.drop_last());
        let added = spec_new_steam(games, steam.drop_last());
        if game_ids(prev).contains(steam.last().id@) {
            added
        } else {
            added.push((steam.last().id@, steam.last().path@))
        }
    }
}

/// Law: merging the Steam games keeps every saved game in place, leaves no
/// Steam game out (each one's identifier is in the result), and repeats no
/// identifier when the saved games repeat none.
pub proof fn lemma_merge_covers(games: Seq<Game>, steam: Seq<Game>)
    ensures
        spec_merged_games(games, steam).len() >= games.len(),
        spec_merged_games(games, steam).subrange(0, games.len() as int) == games,
        forall|k: int| 0 <= k < steam.len() ==> game_ids(spec_merged_games(games, steam)).contains(#[trigger] steam[k].id@),
        game_ids(games).no_duplicates() ==> game_ids(spec_merged_games(games, steam)).no_duplicates(),
    decreases steam.len(),
{
    if steam.len() > 0 {
        let d = steam.drop_last();
        lemma_merge_covers(games, d);
        let prev = spec_merged_games(games, d);
        let last = steam.last();
        if !game_ids(prev).contains(last.id@) {
            let next = prev.push(last);
            assert(next.subrange(0, games.len() as int) =~= prev.subrange(0, games.len() as int));
            assert(game_ids(next) =~= game_ids(prev).push(last.id@));
            assert forall|k: int| 0 <= k < steam.len() implies game_ids(next).contains(#[trigger] steam[k].id@) by {
                if k < steam.len() - 1 {
                    assert(d[k] == steam[k]);
                    assert(game_ids(prev).contains(d[k].id@));
                }
            }
            if game_ids(games).no_duplicates() {
                crate::reshade::config::lemma_push_fresh_no_dup(game_ids(prev), last.id@);
            }
        } else {
            assert forall|k: int| 0 <= k < steam.len() implies game_ids(prev).contains(#[trigger] steam[k].id@) by {
                if k < steam.len() - 1 {
                    assert(d[k] == steam[k]);
                    assert(game_ids(prev).contains(d[k].id@));
                }
            }
        }
    } else {
        assert(games.subrange(0, games.len() as int) =~= games);
    }
}

/// Adds the Steam games not known yet to `games`; returns the identifier and
/// directory of each one added, whose install status is detected later.
pub fn merge_steam_games(games: &mut Vec<Game>, steam: Vec<Game>) -> (added: Vec<(String, String)>)
    ensures
        final(games)@ == spec_merged_games(old(games)@, steam@),
        added@.map_values(|p: (String, String)| (p.0@, p.1@)) == spec_new_steam(old(games)@, steam@),
{
    let ghost g0 = games@;
    let ghost orig = steam@;
    let mut steam = steam;
    let mut added: Vec<(String, String)> = Vec::new();
    let ghost mut k: int = 0;
    assert(orig.take(0) =~= Seq::<Game>::empty());
    assert(added@.map_values(|p: (String, String)| (p.0@, p.1@)) =~= Seq::<(Seq<char>, Seq<char>)>::empty());
    assert(steam@ =~= orig.skip(0));
    while steam.len() > 0
        invariant
            0 <= k <= orig.len(),
            steam@ == orig.skip(k),
            games@ == spec_merged_games(g0, orig.take(k)),
            added@.map_values(|p: (String, String)| (p.0@, p.1@)) == spec_new_steam(g0, orig.take(k)),
        decreases steam.len(),
    {
        let sg = steam.remove(0);
        assert(sg == orig[k]) by {
            assert(orig.skip(k)[0] == orig[k]);
        }
        assert(orig.take(k + 1).drop_last() =~= orig.take(k));
        assert(orig.take(k + 1).last() == orig[k]);
        assert(steam@ =~= orig.skip(k + 1));
        let found = find_game(games, sg.id.as_str());
        if found.is_none() {
            let ghost a0 = added@;
            added.push((sg.id.clone(), sg.path.clone()));
            assert(added@.map_values(|p: (String, String)| (p.0@, p.1@)) =~= a0.map_values(
                |p: (String, String)| (p.0@, p.1@),
            ).push((sg.id@, sg.path@)));
            games.push(sg);
        } else {
            assert(game_ids(games@).contains(sg.id@)) by {
                let i = found.unwrap();
                assert(game_ids(games@)[i as int] == sg.id@);
            }
        }
        proof {
            k = k + 1;
        }
    }
    assert(orig.take(k) =~= orig);
    added
}

/// The test "this repository is not a catalog entry".
pub open spec fn not_known(known: Seq<Seq<char>>) -> spec_fn((Seq<char>, Seq<char>, Option<Seq<char>>, bool)) -> bool {
    |t: (Seq<char>, Seq<char>, Option<Seq<char>>, bool)| !known.contains(t.1)
}

/// The configured repositories that are not catalog entries, in order.
pub fn custom_repos(known: &Vec<CatalogEntry>, config_repos: &Vec<ShaderRepo>) -> (r: Vec<ShaderRepo>)
    ensures
        repo_views(r@) == repo_views(config_repos@).filter(not_known(entry_names(known@))),
{
    let ghost p = not_known(entry_names(known@));
    let mut r: Vec<ShaderRepo> = Vec::new();
    let mut i: usize = 0;
    assert(repo_views(config_repos@.take(0)) =~= Seq::empty());
    reveal_with_fuel(Seq::filter, 1);
    while i < config_repos.len()
        invariant
            i <= config_repos@.len(),
            p == not_known(entry_names(known@)),
            repo_views(r@) == repo_views(config_repos@.take(i as int)).filter(p),
        decreases config_repos.len() - i,
    {
        let ghost prefix = repo_views(config_repos@.take(i as int));
        let ghost t = repo_view(config_repos@[i as int]);
        assert(repo_views(config_repos@.take(i + 1)) =~= prefix.push(t));
        proof {
            prefix.lemma_filter_push(t, p);
        }
        if !is_known_name(known, config_repos[i].local_name.as_str()) {
            let ghost r0 = r@;
            r.push(clone_repo(&config_repos[i]));
            assert(repo_views(r@) =~= repo_views(r0).push(t));
        }
        i = i + 1;
    }
    assert(config_repos@.take(config_repos@.len() as int) =~= config_repos@);
    r
}

/// `name` is the local name of a catalog entry.
pub fn is_known_name(known: &Vec<CatalogEntry>, name: &str) -> (r: bool)
    ensures
        r == entry_names(known@).contains(name@),
{
    let mut i: usize = 0;
    while i < known.len()
        invariant
            i <= known@.len(),
            forall|j: int| 0 <= j < i ==> (#[trigger] known@[j]).local_name@ != name@,
        decreases known.len() - i,
    {
        if str_eq(known[i].local_name.as_str(), name) {
            assert(entry_names(known@)[i as int] == name@);
            return true;
        }
        i = i + 1;
    }
    assert(!entry_names(known@).contains(name@)) by {
        if entry_names(known@).contains(name@) {
            let k = choose|k: int| 0 <= k < entry_names(known@).len() && entry_names(known@)[k] == name@;
            assert(known@[k].local_name@ == name@);
        }
    }
    false
}

/// The test "this repository's directory is on disk".
pub open spec fn on_disk_repo(on_disk: Seq<Seq<char>>) -> spec_fn((Seq<char>, Seq<char>, Option<Seq<char>>, bool)) -> bool {
    |t: (Seq<char>, Seq<char>, Option<Seq<char>>, bool)| on_disk.contains(t.1)
}

/// The test "this custom repository's directory is on disk".
pub open spec fn custom_on_disk(known: Seq<Seq<char>>, on_disk: Seq<Seq<char>>) -> spec_fn(
    (Seq<char>, Seq<char>, Option<Seq<char>>, bool),
) -> bool {
    |t: (Seq<char>, Seq<char>, Option<Seq<char>>, bool)| !known.contains(t.1) && on_disk.contains(t.1)
}

/// The test "this name is not that of a per-game shader directory".
pub open spec fn not_game_dir() -> spec_fn((Seq<char>, Seq<char>, Option<Seq<char>>, bool)) -> bool {
    |t: (Seq<char>, Seq<char>, Option<Seq<char>>, bool)| !GAME_SHADER_DIR_PREFIX@.is_prefix_of(t.1)
}

/// The repositories shown in a game's pane: the catalog entries on disk, then
/// the custom repositories on disk, less any name of a per-game shader directory.
pub open spec fn spec_downloaded_repos(
    known: Seq<CatalogEntry>,
    config_repos: Seq<ShaderRepo>,
    on_disk: Seq<Seq<char>>,
) -> Seq<(Seq<char>, Seq<char>, Option<Seq<char>>, bool)> {
    (entry_views(known).filter(on_disk_repo(on_disk)) + repo_views(config_repos).filter(
        custom_on_disk(entry_names(known), on_disk),
    )).filter(not_game_dir())
}

fn is_game_dir_name(name: &str) -> (r: bool)
    ensures
        r == GAME_SHADER_DIR_PREFIX@.is_prefix_of(name@),
{
    let v = chars_of(name);
    let p = chars_of(GAME_SHADER_DIR_PREFIX);
    starts_with(v.as_slice(), p.as_slice())
}

/// The repositories shown in a game's pane; `on_disk` names the directories
/// present under `ReShade_shaders/`.
pub fn downloaded_repos(known: &Vec<CatalogEntry>, config_repos: &Vec<ShaderRepo>, on_disk: &Vec<String>) -> (r: Vec<
    ShaderRepo,
>)
    ensures
        repo_views(r@) == spec_downloaded_repos(known@, config_repos@, names(on_disk@)),
{
    let ghost d = names(on_disk@);
    let ghost kn = entry_names(known@);
    let ghost pa = on_disk_repo(d);
    let ghost pb = custom_on_disk(kn, d);
    let ghost pg = not_game_dir();
    let mut r: Vec<ShaderRepo> = Vec::new();
    reveal_with_fuel(Seq::filter, 1);
    let mut i: usize = 0;
    assert(entry_views(known@.take(0)) =~= Seq::empty());
    while i < known.len()
        invariant
            i <= known@.len(),
            d == names(on_disk@),
            pa == on_disk_repo(d),
            pg == not_game_dir(),
            repo_views(r@) == entry_views(known@.take(i as int)).filter(pa).filter(pg),
        decreases known.len() - i,
    {
        let ghost prefix = entry_views(known@.take(i as int));
        let ghost t = entry_repo(known@[i as int]);
        assert(entry_views(known@.take(i + 1)) =~= prefix.push(t));
        proof {
            prefix.lemma_filter_push(t, pa);
            prefix.filter(pa).lemma_filter_push(t, pg);
        }
        let name = known[i].local_name.as_str();
        if contains_name(on_disk, name) && !is_game_dir_name(name) {
            let ghost r0 = r@;
            r.push(known[i].to_shader_repo());
            assert(repo_views(r@) =~= repo_views(r0).push(t));
        }
        i = i + 1;
    }
    assert(known@.take(known@.len() as int) =~= known@);
    let ghost first = entry_views(known@).filter(pa);
    let mut j: usize = 0;
    assert(repo_views(config_repos@.take(0)) =~= Seq::empty());
    assert(first + repo_views(config_repos@.take(0)).filter(pb) =~= first);
    while j < config_repos.len()
        invariant
            j <= config_repos@.len(),
            d == names(on_disk@),
            kn == entry_names(known@),
            pb == custom_on_disk(kn, d),
            pg == not_game_dir(),
            first == entry_views(known@).filter(pa),
            repo_views(r@) == (first + repo_views(config_repos@.take(j as int)).filter(pb)).filter(pg),
        decreases config_repos.len() - j,
    {
        let ghost prefix = repo_views(config_repos@.take(j as int));
        let ghost t = repo_view(config_repos@[j as int]);
        assert(repo_views(config_repos@.take(j + 1)) =~= prefix.push(t));
        proof {
            prefix.lemma_filter_push(t, pb);
            if pb(t) {
                assert(first + prefix.filter(pb).push(t) =~= (first + prefix.filter(pb)).push(t));
                (first + prefix.filter(pb)).lemma_filter_push(t, pg);
            }
        }
        let name = config_repos[j].local_name.as_str();
        if !is_known_name(known, name) && contains_name(on_disk, name) && !is_game_dir_name(name) {
            let ghost r0 = r@;
            r.push(clone_repo(&config_repos[j]));
            assert(repo_views(r@) =~= repo_views(r0).push(t));
        }
        j = j + 1;
    }
    assert(config_repos@.take(config_repos@.len() as int) =~= config_repos@);
    r
}

/// The first component of `abs` below `dir`, as
/// `abs.strip_prefix(dir).ok()?.components().next()` gives it.
pub open spec fn spec_first_under(abs: Seq<char>, dir: Seq<char>) -> Option<Seq<char>> {
    let ka = path_key(abs);
    let kd = path_key(dir);
    if ka.0 == kd.0 && ka.1 == kd.1 && kd.2.is_prefix_of(ka.2) && ka.2.len() > kd.2.len() {
        Some(ka.2[kd.2.len() as int])
    } else {
        None
    }
}

/// The first component of `abs` below `dir`, when `abs` lies below `dir`.
pub fn first_under(abs: &str, dir: &str) -> (r: Option<String>)
    ensures
        opt_chars(r) == spec_first_under(abs@, dir@),
{
    let av = chars_of(abs);
    let dv = chars_of(dir);
    let a_root = av.len() > 0 && av[0] == '/';
    let d_root = dv.len() > 0 && dv[0] == '/';
    let a_dot = av.len() > 0 && av[0] == '.' && (av.len() == 1 || av[1] == '/');
    let d_dot = dv.len() > 0 && dv[0] == '.' && (dv.len() == 1 || dv[1] == '/');
    if a_root != d_root || a_dot != d_dot {
        return None;
    }
    let ac = components(abs);
    let dc = components(dir);
    let ghost am = comp_views(ac@);
    let ghost dm = comp_views(dc@);
    if ac.len() <= dc.len() {
        return None;
    }
    let mut i: usize = 0;
    while i < dc.len()
        invariant
            dc@.len() < ac@.len(),
            am == comp_views(ac@),
            dm == comp_views(dc@),
            am == path_key(abs@).2,
            dm == path_key(dir@).2,
            i <= dc@.len(),
            forall|j: int| 0 <= j < i ==> am[j] == dm[j],
        decreases dc.len() - i,
    {
        if !chars_eq(ac[i].as_slice(), dc[i].as_slice()) {
            assert(am[i as int] != dm[i as int]);
            assert(!dm.is_prefix_of(am));
            return None;
        }
        i = i + 1;
    }
    assert(dm.is_prefix_of(am)) by {
        assert(dm =~= am.subrange(0, dm.len() as int));
    }
    let n = dc.len();
    assert(am[n as int] == ac@[n as int]@);
    Some(string_of(ac[n].as_slice()))
}

/// The version a game's DLL link points into, when the game is installed and
/// its link target (read from disk) lies in `reshade_dir`.
pub open spec fn spec_version_in_use(g: Game, target: Option<Seq<char>>, reshade_dir: Seq<char>) -> Option<Seq<char>> {
    if g.status is Installed {
        match target {
            Some(t) => spec_first_under(spec_join(g.path@, t), reshade_dir),
            None => None,
        }
    } else {
        None
    }
}

/// `v` is the version some game's link points into.
pub open spec fn in_use_by_some(games: Seq<Game>, targets: Seq<Option<String>>, reshade_dir: Seq<char>, v: Seq<char>) -> bool {
    exists|i: int| 0 <= i < games.len() && #[trigger] spec_version_in_use(games[i], opt_chars(targets[i]), reshade_dir) == Some(v)
}

/// Which cached versions at least one game uses: those its DLL link points
/// into under `data_dir/reshade`. `targets[i]` is what the link of game `i`
/// reads back (`None` when there is none or it cannot be read).
pub fn versions_in_use(games: &Vec<Game>, data_dir: &str, targets: &Vec<Option<String>>) -> (r: Vec<String>)
    requires
        targets@.len() == games@.len(),
    ensures
        names(r@).no_duplicates(),
        forall|v: Seq<char>| #[trigger] names(r@).contains(v) <==> in_use_by_some(games@, targets@, spec_join(data_dir@, RESHADE_DIR@), v),
{
    let reshade_dir = join(data_dir, RESHADE_DIR);
    let mut r: Vec<String> = Vec::new();
    let mut i: usize = 0;
    while i < games.len()
        invariant
            targets@.len() == games@.len(),
            reshade_dir@ == spec_join(data_dir@, RESHADE_DIR@),
            i <= games@.len(),
            names(r@).no_duplicates(),
            forall|v: Seq<char>| #[trigger] names(r@).contains(v) <==> exists|j: int| 0 <= j < i
                && #[trigger] spec_version_in_use(games@[j], opt_chars(targets@[j]), reshade_dir@) == Some(v),
        decreases games.len() - i,
    {
        let g = &games[i];
        let found: Option<String> = match (&g.status, &targets[i]) {
            (InstallStatus::Installed { .. }, Some(t)) => {
                let abs = join(g.path.as_str(), t.as_str());
                first_under(abs.as_str(), reshade_dir.as_str())
            },
            _ => None,
        };
        assert(opt_chars(found) == spec_version_in_use(games@[i as int], opt_chars(targets@[i as int]), reshade_dir@));
        let ghost r0 = names(r@);
        match found {
            Some(v) => {
                if !contains_name(&r, v.as_str()) {
                    r.push(v);
                    assert(names(r@) =~= r0.push(v@));
                    proof {
                        crate::reshade::config::lemma_push_fresh_no_dup(r0, v@);
                    }
                }
            },
            None => {},
        }
        assert forall|v: Seq<char>| #[trigger] names(r@).contains(v) <==> exists|j: int| 0 <= j < i + 1
            && #[trigger] spec_version_in_use(games@[j], opt_chars(targets@[j]), reshade_dir@) == Some(v) by {
            if names(r@).contains(v) && !r0.contains(v) {
                assert(spec_version_in_use(games@[i as int], opt_chars(targets@[i as int]), reshade_dir@) == Some(v));
            }
            if exists|j: int| 0 <= j < i + 1 && #[trigger] spec_version_in_use(games@[j], opt_chars(targets@[j]), reshade_dir@) == Some(v) {
                let j = choose|j: int| 0 <= j < i + 1 && #[trigger] spec_version_in_use(games@[j], opt_chars(targets@[j]), reshade_dir@) == Some(v);
                if j < i {
                    assert(r0.contains(v));
                }
            }
        }
        i = i + 1;
    }
    r
}

/// The latest version after the startup check. `fetched` is `None` when no
/// check was due, else what the check returned: on success the version is
/// recorded as the latest and the check time is `now`; otherwise, or with no
/// check due, the recorded latest version stands.
pub fn latest_after_check(cache: &mut UpdateCache, now: u64, fetched: Option<Result<String, String>>) -> (r: Option<String>)
    ensures
        match fetched {
            Some(Ok(v)) => opt_chars(r) == Some(v@) && final(cache).spec_latest() == Some(v@)
                && final(cache).spec_last_checked() == Some(now)
                && final(cache).spec_installed() == old(cache).spec_installed()
                && final(cache).spec_base() == old(cache).spec_base(),
            _ => opt_chars(r) == old(cache).spec_latest() && final(cache).spec_latest() == old(cache).spec_latest()
                && final(cache).spec_last_checked() == old(cache).spec_last_checked()
                && final(cache).spec_installed() == old(cache).spec_installed()
                && final(cache).spec_base() == old(cache).spec_base(),
        },
{
    match fetched {
        Some(Ok(v)) => {
            cache.write_version(v.as_str());
            cache.touch(now);
            Some(v)
        },
        _ => cache.read_version(),
    }
}

} // verus!
