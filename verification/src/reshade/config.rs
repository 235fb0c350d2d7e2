//! Application configuration types.
use vstd::prelude::*;

use crate::reshade::reshade::names;
use crate::text::{clone_opt, str_eq};

verus! {

/// A remote Git repository containing `ReShade` shaders.
#[derive(Debug, Clone)]
pub struct ShaderRepo {
    /// Remote URL (HTTPS).
    pub url: String,
    /// Local directory name under `ReShade_shaders/`.
    pub local_name: String,
    /// Optional branch name; clones the default branch when `None`.
    pub branch: Option<String>,
    /// Whether this repo is enabled for new games by default.
    pub enabled_by_default: bool,
}

/// The plain value of a repository: URL, local name, branch, default flag.
pub open spec fn repo_view(r: ShaderRepo) -> (Seq<char>, Seq<char>, Option<Seq<char>>, bool) {
    (
        r.url@,
        r.local_name@,
        match r.branch {
            Some(b) => Some(b@),
            None => None,
        },
        r.enabled_by_default,
    )
}

/// The plain values of a list of repositories.
pub open spec fn repo_views(s: Seq<ShaderRepo>) -> Seq<(Seq<char>, Seq<char>, Option<Seq<char>>, bool)> {
    s.map_values(|r: ShaderRepo| repo_view(r))
}

/// Global application configuration.
#[derive(Debug, Clone)]
pub struct GlobalConfig {
    /// Ordered list of shader repositories.
    pub shader_repos: Vec<ShaderRepo>,
    /// When true, shaders from all repos are merged into a single `Merged/` directory.
    pub merge_shaders: bool,
    /// How many hours between automatic update checks.
    pub update_interval_hours: u64,
}

/// Per-game shader repository overrides.
#[derive(Debug, Clone)]
pub struct ShaderOverrides {
    /// `local_name`s of repos disabled for this game.
    pub disabled_repos: Vec<String>,
}

impl Default for ShaderOverrides {
    fn default() -> (r: Self)
        ensures
            r.disabled_repos@.len() == 0,
    {
        ShaderOverrides { disabled_repos: Vec::new() }
    }
}

/// The built-in repository list: URL, local name, branch, in display order.
pub open spec fn default_repo_entry(i: int) -> (Seq<char>, Seq<char>, Option<Seq<char>>, bool) {
    if i == 0 {
        ("https://github.com/crosire/reshade-shaders"@, "reshade-shaders"@, Some("slim"@), true)
    } else if i == 1 {
        ("https://github.com/martymcmodding/qUINT"@, "martymc-shaders"@, None, true)
    } else if i == 2 {
        ("https://github.com/CeeJayDK/SweetFX"@, "sweetfx-shaders"@, None, true)
    } else if i == 3 {
        ("https://github.com/BlueSkyDefender/AstrayFX"@, "astrayfx-shaders"@, None, true)
    } else {
        ("https://github.com/prod80/prod80-ReShade-Repository"@, "prod80-shaders"@, None, true)
    }
}

/// Number of built-in repositories.
pub const DEFAULT_REPO_COUNT: usize = 5;

/// One enabled-by-default repository.
fn repo(url: &str, local_name: &str, branch: Option<&str>) -> (r: ShaderRepo)
    ensures
        r.url@ == url@,
        r.local_name@ == local_name@,
        match branch {
            Some(b) => r.branch matches Some(rb) && rb@ == b@,
            None => r.branch is None,
        },
        r.enabled_by_default,
{
    ShaderRepo {
        url: url.to_owned(),
        local_name: local_name.to_owned(),
        branch: match branch {
            Some(b) => Some(b.to_owned()),
            None => None,
        },
        enabled_by_default: true,
    }
}

/// The built-in shader repositories, enabled by default.
pub fn default_shader_repos() -> (r: Vec<ShaderRepo>)
    ensures
        r@.len() == DEFAULT_REPO_COUNT,
        forall|i: int| 0 <= i < r@.len() ==> repo_view(#[trigger] r@[i]) == default_repo_entry(i),
{
    let mut v: Vec<ShaderRepo> = Vec::new();
    v.push(repo("https://github.com/crosire/reshade-shaders", "reshade-shaders", Some("slim")));
    v.push(repo("https://github.com/martymcmodding/qUINT", "martymc-shaders", None));
    v.push(repo("https://github.com/CeeJayDK/SweetFX", "sweetfx-shaders", None));
    v.push(repo("https://github.com/BlueSkyDefender/AstrayFX", "astrayfx-shaders", None));
    v.push(repo("https://github.com/prod80/prod80-ReShade-Repository", "prod80-shaders", None));
    v
}

impl Default for GlobalConfig {
    fn default() -> (r: Self)
        ensures
            r.shader_repos@.len() == DEFAULT_REPO_COUNT,
            forall|i: int|
                0 <= i < r.shader_repos@.len() ==> repo_view(#[trigger] r.shader_repos@[i])
                    == default_repo_entry(i),
            r.merge_shaders,
            r.update_interval_hours == 4,
    {
        GlobalConfig {
            shader_repos: default_shader_repos(),
            merge_shaders: true,
            update_interval_hours: 4,
        }
    }
}

/// Copies a list of strings.
pub fn clone_strings(v: &Vec<String>) -> (r: Vec<String>)
    ensures
        names(r@) == names(v@),
{
    let mut r: Vec<String> = Vec::new();
    let mut i: usize = 0;
    while i < v.len()
        invariant
            i <= v@.len(),
            r@.len() == i,
            forall|j: int| 0 <= j < i ==> (#[trigger] r@[j])@ == v@[j]@,
        decreases v.len() - i,
    {
        r.push(v[i].clone());
        i = i + 1;
    }
    assert(names(r@) =~= names(v@));
    r
}

/// The plain value of a configuration: its repositories, the merge switch and
/// the update interval.
pub open spec fn config_view(c: GlobalConfig) -> (Seq<(Seq<char>, Seq<char>, Option<Seq<char>>, bool)>, bool, u64) {
    (repo_views(c.shader_repos@), c.merge_shaders, c.update_interval_hours)
}

/// Copies a repository.
pub fn clone_repo(r: &ShaderRepo) -> (c: ShaderRepo)
    ensures
        repo_view(c) == repo_view(*r),
{
    ShaderRepo {
        url: r.url.clone(),
        local_name: r.local_name.clone(),
        branch: clone_opt(&r.branch),
        enabled_by_default: r.enabled_by_default,
    }
}

/// Copies a configuration.
pub fn clone_config(c: &GlobalConfig) -> (r: GlobalConfig)
    ensures
        config_view(r) == config_view(*c),
{
    let mut repos: Vec<ShaderRepo> = Vec::new();
    let mut i: usize = 0;
    while i < c.shader_repos.len()
        invariant
            i <= c.shader_repos@.len(),
            repos@.len() == i,
            forall|j: int| 0 <= j < i ==> repo_view(#[trigger] repos@[j]) == repo_view(c.shader_repos@[j]),
        decreases c.shader_repos.len() - i,
    {
        repos.push(clone_repo(&c.shader_repos[i]));
        i = i + 1;
    }
    assert(repo_views(repos@) =~= repo_views(c.shader_repos@));
    GlobalConfig { shader_repos: repos, merge_shaders: c.merge_shaders, update_interval_hours: c.update_interval_hours }
}

/// `names` holds a string equal to `v`.
pub fn contains_name(names_vec: &Vec<String>, v: &str) -> (r: bool)
    ensures
        r == names(names_vec@).contains(v@),
{
    let mut i: usize = 0;
    while i < names_vec.len()
        invariant
            i <= names_vec@.len(),
            forall|j: int| 0 <= j < i ==> names_vec@[j]@ != v@,
        decreases names_vec.len() - i,
    {
        if str_eq(names_vec[i].as_str(), v) {
            assert(names(names_vec@)[i as int] == v@);
            return true;
        }
        i = i + 1;
    }
    assert(!names(names_vec@).contains(v@)) by {
        if names(names_vec@).contains(v@) {
            let j = choose|j: int| 0 <= j < names(names_vec@).len() && names(names_vec@)[j] == v@;
            assert(names_vec@[j]@ == v@);
        }
    }
    false
}

/// The members of `s` other than `x`, in their order.
pub open spec fn drop_name(s: Seq<Seq<char>>, x: Seq<char>) -> Seq<Seq<char>> {
    s.filter(other_than(x))
}

/// The test "is not `x`".
pub open spec fn other_than(x: Seq<char>) -> spec_fn(Seq<char>) -> bool {
    |n: Seq<char>| n != x
}

/// A copy of `items` without the strings equal to `x`, in order.
pub fn without_name(items: &Vec<String>, x: &str) -> (r: Vec<String>)
    ensures
        names(r@) == drop_name(names(items@), x@),
{
    let ghost pred = other_than(x@);
    let mut kept: Vec<String> = Vec::new();
    let mut i: usize = 0;
    assert(names(items@.take(0)) =~= Seq::<Seq<char>>::empty());
    reveal_with_fuel(Seq::filter, 1);
    while i < items.len()
        invariant
            i <= items@.len(),
            names(kept@) == names(items@.take(i as int)).filter(pred),
            pred == other_than(x@),
        decreases items.len() - i,
    {
        let ghost prefix = names(items@.take(i as int));
        assert(names(items@.take(i + 1)) =~= prefix.push(items@[i as int]@));
        proof {
            prefix.lemma_filter_push(items@[i as int]@, pred);
        }
        if !str_eq(items[i].as_str(), x) {
            let item = items[i].clone();
            kept.push(item);
            assert(names(kept@) =~= prefix.filter(pred).push(items@[i as int]@));
        }
        i = i + 1;
    }
    assert(items@.take(items@.len() as int) =~= items@);
    kept
}

/// The disabled list after switching `name` on (`enabled`) or off.
pub open spec fn spec_toggled(disabled: Seq<Seq<char>>, name: Seq<char>, enabled: bool) -> Seq<Seq<char>> {
    if enabled {
        drop_name(disabled, name)
    } else if disabled.contains(name) {
        disabled
    } else {
        disabled.push(name)
    }
}

impl ShaderOverrides {
    /// Whether `repo_name` is enabled for the game: it is not among the disabled repos.
    pub fn is_repo_enabled(&self, repo_name: &str) -> (r: bool)
        ensures
            r == !names(self.disabled_repos@).contains(repo_name@),
    {
        !contains_name(&self.disabled_repos, repo_name)
    }

    /// Enables or disables `repo_name` for the game.
    ///
    /// Enabling removes every copy of the name from the disabled list; disabling
    /// adds it once, unless it is already there.
    pub fn set_repo_enabled(&mut self, repo_name: &str, enabled: bool)
        ensures
            enabled ==> names(final(self).disabled_repos@) == drop_name(names(old(self).disabled_repos@), repo_name@),
            !enabled && names(old(self).disabled_repos@).contains(repo_name@) ==> final(self).disabled_repos@ == old(self).disabled_repos@,
            !enabled && !names(old(self).disabled_repos@).contains(repo_name@) ==> names(final(self).disabled_repos@) == names(old(self).disabled_repos@).push(repo_name@),
            names(final(self).disabled_repos@) == spec_toggled(names(old(self).disabled_repos@), repo_name@, enabled),
    {
        if enabled {
            self.disabled_repos = without_name(&self.disabled_repos, repo_name);
        } else if !contains_name(&self.disabled_repos, repo_name) {
            let ghost before = self.disabled_repos@;
            self.disabled_repos.push(repo_name.to_owned());
            assert(names(self.disabled_repos@) =~= names(before).push(repo_name@));
        }
    }
}

/// Law: a repository is enabled right after it is enabled, and disabled right
/// after it is disabled.
pub proof fn lemma_toggle_takes_effect(disabled: Seq<Seq<char>>, name: Seq<char>)
    ensures
        !drop_name(disabled, name).contains(name),
        disabled.push(name).contains(name),
{
    let ne = other_than(name);
    if disabled.filter(ne).contains(name) {
        let j = choose|j: int| 0 <= j < disabled.filter(ne).len() && disabled.filter(ne)[j] == name;
        disabled.lemma_filter_pred(ne, j);
    }
    assert(disabled.push(name)[disabled.len() as int] == name);
}

/// Adding a name that is not in a list without repeats keeps it without repeats.
pub proof fn lemma_push_fresh_no_dup(s: Seq<Seq<char>>, x: Seq<char>)
    requires
        s.no_duplicates(),
        !s.contains(x),
    ensures
        s.push(x).no_duplicates(),
{
    assert forall|i: int, j: int| 0 <= i < s.push(x).len() && 0 <= j < s.push(x).len() && i != j implies s.push(x)[i] != s.push(x)[j] by {
        if i == s.len() {
            assert(s.push(x)[j] == s[j]);
        } else if j == s.len() {
            assert(s.push(x)[i] == s[i]);
        }
    }
}

/// Dropping a name from a list without repeats keeps it without repeats.
pub proof fn lemma_filter_no_dup(s: Seq<Seq<char>>, x: Seq<char>)
    requires
        s.no_duplicates(),
    ensures
        drop_name(s, x).no_duplicates(),
    decreases s.len(),
{
    let p = other_than(x);
    reveal(Seq::filter);
    if s.len() > 0 {
        let d = s.drop_last();
        assert(d.no_duplicates()) by {
            assert forall|i: int, j: int| 0 <= i < d.len() && 0 <= j < d.len() && i != j implies d[i] != d[j] by {
                assert(d[i] == s[i] && d[j] == s[j]);
            }
        }
        lemma_filter_no_dup(d, x);
        if p(s.last()) {
            let f = d.filter(p);
            assert(!f.contains(s.last())) by {
                if f.contains(s.last()) {
                    d.lemma_filter_contains_rev(p, s.last());
                    let k = choose|k: int| 0 <= k < d.len() && d[k] == s.last();
                    assert(s[k] == s[s.len() - 1]);
                }
            }
            lemma_push_fresh_no_dup(f, s.last());
        }
    }
}

} // verus!
