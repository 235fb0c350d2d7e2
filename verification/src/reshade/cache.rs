//! Update tracking: the `ReShade` version state kept in `reshade_state.json`,
//! and the transitions the cache applies to it.
use vstd::prelude::*;

use crate::reshade::config::{clone_strings, contains_name, drop_name, other_than, without_name};
use crate::reshade::paths::{join, spec_join, RESHADE_STATE_FILE};
use crate::text::opt_chars;
use crate::reshade::reshade::{
    is_version_sort_of, names, sort_versions, sorted_by_version, spec_version_key, with_key,
    VersionKey,
};

verus! {

/// Persisted version and update state for `ReShade`.
#[derive(Debug, Clone)]
pub struct VersionState {
    /// Latest known `ReShade` version string, e.g. `"6.1.0"`.
    pub latest: Option<String>,
    /// Unix timestamp (seconds) of the last GitHub API check.
    pub last_checked: Option<u64>,
    /// Locally installed versions, sorted in ascending version order.
    pub installed: Vec<String>,
}

/// The seconds in one hour.
pub const SECONDS_PER_HOUR: u64 = 3600;

/// Whether the state calls for a new update check at time `now` (Unix seconds;
/// 0 when the clock cannot be read), given the interval in hours.
pub open spec fn spec_needs_update(last_checked: Option<u64>, now: u64, interval_hours: u64) -> bool {
    match last_checked {
        None => true,
        Some(ts) => (if now >= ts {
            now - ts
        } else {
            0
        }) > interval_hours * SECONDS_PER_HOUR,
    }
}

impl Default for VersionState {
    fn default() -> (r: Self)
        ensures
            r.latest is None,
            r.last_checked is None,
            r.installed@.len() == 0,
    {
        VersionState { latest: None, last_checked: None, installed: Vec::new() }
    }
}

/// Manages the `reshade_state.json` file under the iris data directory: the
/// directory, and the state that the file holds (empty while it is absent).
pub struct UpdateCache {
    base: String,
    state: VersionState,
}

impl UpdateCache {
    /// The directory that holds the state file.
    pub closed spec fn spec_base(&self) -> Seq<char> {
        self.base@
    }

    /// The latest known version recorded in the state.
    pub closed spec fn spec_latest(&self) -> Option<Seq<char>> {
        opt_chars(self.state.latest)
    }

    /// The time of the last update check recorded in the state.
    pub closed spec fn spec_last_checked(&self) -> Option<u64> {
        self.state.last_checked
    }

    /// The installed versions recorded in the state, in their order.
    pub closed spec fn spec_installed(&self) -> Seq<Seq<char>> {
        names(self.state.installed@)
    }

    /// Creates a new cache pointing at the given directory, whose state file
    /// does not exist yet.
    pub fn new(base: String) -> (r: Self)
        ensures
            r.spec_base() == base@,
            r.spec_latest() is None,
            r.spec_last_checked() is None,
            r.spec_installed().len() == 0,
    {
        UpdateCache { base, state: VersionState::default() }
    }

    /// A cache for the directory `base` whose state file holds `state`.
    pub fn with_state(base: String, state: VersionState) -> (r: Self)
        ensures
            r.spec_base() == base@,
            r.spec_latest() == opt_chars(state.latest),
            r.spec_last_checked() == state.last_checked,
            r.spec_installed() == names(state.installed@),
    {
        UpdateCache { base, state }
    }

    /// The state to write back to the file.
    pub fn state(&self) -> (r: VersionState)
        ensures
            opt_chars(r.latest) == self.spec_latest(),
            r.last_checked == self.spec_last_checked(),
            names(r.installed@) == self.spec_installed(),
    {
        let latest = match &self.state.latest {
            Some(l) => Some(l.clone()),
            None => None,
        };
        VersionState { latest, last_checked: self.state.last_checked, installed: self.read_installed() }
    }

    /// The directory that holds the state file.
    pub fn base(&self) -> (r: &str)
        ensures
            r@ == self.spec_base(),
    {
        self.base.as_str()
    }

    /// Path of the state file: `base/reshade_state.json`.
    pub fn state_path(&self) -> (r: String)
        ensures
            r@ == spec_join(self.spec_base(), RESHADE_STATE_FILE@),
    {
        join(self.base.as_str(), RESHADE_STATE_FILE)
    }

    /// Returns the last recorded `ReShade` version, or `None` if unknown.
    pub fn read_version(&self) -> (r: Option<String>)
        ensures
            opt_chars(r) == self.spec_latest(),
    {
        match &self.state.latest {
            Some(l) => Some(l.clone()),
            None => None,
        }
    }

    /// Records `version` as the latest known version.
    pub fn write_version(&mut self, version: &str)
        ensures
            final(self).spec_latest() == Some(version@),
            final(self).spec_last_checked() == old(self).spec_last_checked(),
            final(self).spec_installed() == old(self).spec_installed(),
            final(self).spec_base() == old(self).spec_base(),
    {
        self.state.latest = Some(version.to_owned());
    }

    /// Sets the last-checked timestamp to `now` (Unix seconds).
    pub fn touch(&mut self, now: u64)
        ensures
            final(self).spec_last_checked() == Some(now),
            final(self).spec_latest() == old(self).spec_latest(),
            final(self).spec_installed() == old(self).spec_installed(),
            final(self).spec_base() == old(self).spec_base(),
    {
        self.state.last_checked = Some(now);
    }

    /// Returns `true` if more than `interval_hours` have passed between the last
    /// check and `now`, or if there was no check yet.
    pub fn needs_update(&self, now: u64, interval_hours: u64) -> (r: bool)
        requires
            interval_hours * SECONDS_PER_HOUR <= u64::MAX,
        ensures
            r == spec_needs_update(self.spec_last_checked(), now, interval_hours),
    {
        match self.state.last_checked {
            None => true,
            Some(ts) => now.saturating_sub(ts) > interval_hours * SECONDS_PER_HOUR,
        }
    }

    /// Records a newly installed version, keeping the list sorted.
    ///
    /// A version already in the list leaves the state unchanged.
    pub fn add_installed(&mut self, version: &str)
        ensures
            old(self).spec_installed().contains(version@) ==> final(self).spec_installed() == old(self).spec_installed(),
            !old(self).spec_installed().contains(version@) ==> is_version_sort_of(final(self).spec_installed(), old(self).spec_installed().push(version@)),
            final(self).spec_latest() == old(self).spec_latest(),
            final(self).spec_last_checked() == old(self).spec_last_checked(),
            final(self).spec_base() == old(self).spec_base(),
    {
        if !contains_name(&self.state.installed, version) {
            let ghost before = self.state.installed@;
            self.state.installed.push(version.to_owned());
            assert(names(self.state.installed@) =~= names(before).push(version@));
            let sorted = sort_versions(&self.state.installed);
            self.state.installed = sorted;
        }
    }

    /// Removes every copy of `version` from the installed list.
    pub fn remove_installed(&mut self, version: &str)
        ensures
            final(self).spec_installed() == drop_name(old(self).spec_installed(), version@),
            final(self).spec_latest() == old(self).spec_latest(),
            final(self).spec_last_checked() == old(self).spec_last_checked(),
            final(self).spec_base() == old(self).spec_base(),
    {
        self.state.installed = without_name(&self.state.installed, version);
    }

    /// Returns the list of locally installed versions.
    pub fn read_installed(&self) -> (r: Vec<String>)
        ensures
            names(r@) == self.spec_installed(),
    {
        clone_strings(&self.state.installed)
    }
}

/// Law: after adding a version, it is in the installed list.
pub proof fn lemma_added_is_installed(before: Seq<Seq<char>>, v: Seq<char>, after: Seq<Seq<char>>)
    requires
        is_version_sort_of(after, before.push(v)),
    ensures
        after.contains(v),
{
    let k = spec_version_key(v);
    let pred = |y: Seq<char>| spec_version_key(y) == k;
    let inp = before.push(v);
    assert(with_key(after, k) == with_key(inp, k));
    assert(with_key(inp, k) == inp.filter(pred));
    assert(with_key(after, k) == after.filter(pred));
    inp.lemma_filter_contains(pred, inp.len() - 1);
    after.lemma_filter_contains_rev(pred, v);
}

proof fn lemma_filter_commutes(s: Seq<Seq<char>>, p: spec_fn(Seq<char>) -> bool, q: spec_fn(Seq<char>) -> bool)
    ensures
        s.filter(p).filter(q) == s.filter(q).filter(p),
    decreases s.len(),
{
    if s.len() > 0 {
        lemma_filter_commutes(s.drop_last(), p, q);
        assert(s =~= s.drop_last().push(s.last()));
        s.drop_last().lemma_filter_push(s.last(), p);
        s.drop_last().lemma_filter_push(s.last(), q);
        s.drop_last().filter(p).lemma_filter_push(s.last(), q);
        s.drop_last().filter(q).lemma_filter_push(s.last(), p);
    } else {
        reveal(Seq::filter);
    }
}

proof fn lemma_filter_sorted(s: Seq<Seq<char>>, p: spec_fn(Seq<char>) -> bool)
    requires
        sorted_by_version(s),
    ensures
        sorted_by_version(s.filter(p)),
    decreases s.len(),
{
    if s.len() == 0 {
        reveal(Seq::filter);
    } else {
        let d = s.drop_last();
        assert(sorted_by_version(d)) by {
            assert forall|i: int, j: int| 0 <= i < j < d.len() implies key_le_at(d, i, j) by {
                assert(d[i] == s[i] && d[j] == s[j]);
            }
        }
        lemma_filter_sorted(d, p);
        assert(s =~= d.push(s.last()));
        d.lemma_filter_push(s.last(), p);
        if p(s.last()) {
            let f = d.filter(p);
            let g = f.push(s.last());
            assert forall|i: int, j: int| 0 <= i < j < g.len() implies crate::reshade::reshade::key_le(
                #[trigger] spec_version_key(g[i]),
                #[trigger] spec_version_key(g[j]),
            ) by {
                if j == g.len() - 1 {
                    assert(f.contains(g[i]));
                    d.lemma_filter_contains_rev(p, g[i]);
                    let m = choose|m: int| 0 <= m < d.len() && d[m] == g[i];
                    assert(s[m] == g[i]);
                    assert(key_le_at(s, m, s.len() - 1));
                } else {
                    assert(g[i] == f[i] && g[j] == f[j]);
                    assert(key_le_at(f, i, j));
                }
            }
            assert(sorted_by_version(g));
            assert(s.filter(p) == g);
        } else {
            assert(s.filter(p) == d.filter(p));
        }
    }
}

/// The pair `(i, j)` of `s` is in version order.
pub open spec fn key_le_at(s: Seq<Seq<char>>, i: int, j: int) -> bool {
    crate::reshade::reshade::key_le(spec_version_key(s[i]), spec_version_key(s[j]))
}

/// Law: on a sorted installed list that lacks `v`, adding `v` and then removing
/// it gives back the list unchanged.
pub proof fn lemma_add_then_remove_restores(before: Seq<Seq<char>>, v: Seq<char>, after: Seq<Seq<char>>)
    requires
        sorted_by_version(before),
        !before.contains(v),
        is_version_sort_of(after, before.push(v)),
    ensures
        drop_name(after, v) == before,
{
    let ne = other_than(v);
    let res = after.filter(ne);
    lemma_filter_sorted(after, ne);
    assert(sorted_by_version(res));
    assert forall|k: VersionKey| #[trigger] with_key(res, k) == with_key(before, k) by {
        let pk = |y: Seq<char>| spec_version_key(y) == k;
        assert(with_key(res, k) == res.filter(pk));
        assert(with_key(after, k) == after.filter(pk));
        assert(with_key(before.push(v), k) == before.push(v).filter(pk));
        assert(with_key(before, k) == before.filter(pk));
        lemma_filter_commutes(after, ne, pk);
        // with_key(after) == with_key(before.push(v))
        before.lemma_filter_push(v, pk);
        before.filter(pk).lemma_filter_push(v, ne);
        lemma_filter_commutes(before, pk, ne);
        // removing v from `before` changes nothing
        assert(before.filter(ne) == before) by {
            lemma_filter_all_keep(before, ne);
        }
    }
    crate::reshade::reshade::lemma_version_sort_unique(res, before, before);
}

proof fn lemma_filter_all_keep(s: Seq<Seq<char>>, p: spec_fn(Seq<char>) -> bool)
    requires
        forall|i: int| 0 <= i < s.len() ==> p(#[trigger] s[i]),
    ensures
        s.filter(p) == s,
    decreases s.len(),
{
    reveal(Seq::filter);
    if s.len() > 0 {
        lemma_filter_all_keep(s.drop_last(), p);
        assert(s =~= s.drop_last().push(s.last()));
    }
}

/// Law: removing a version that is not installed changes nothing.
pub proof fn lemma_remove_absent_is_noop(before: Seq<Seq<char>>, v: Seq<char>)
    requires
        !before.contains(v),
    ensures
        drop_name(before, v) == before,
{
    lemma_filter_all_keep(before, other_than(v));
}

/// Law: after removing a version, it is no longer in the installed list.
pub proof fn lemma_removed_is_absent(before: Seq<Seq<char>>, v: Seq<char>)
    ensures
        !drop_name(before, v).contains(v),
{
    let ne = other_than(v);
    if before.filter(ne).contains(v) {
        let j = choose|j: int| 0 <= j < before.filter(ne).len() && before.filter(ne)[j] == v;
        before.lemma_filter_pred(ne, j);
    }
}

/// Law: a check is due once more than the interval has passed since the last
/// touch, and not before.
pub proof fn lemma_touch_then_needs_update(t: u64, now: u64, interval_hours: u64)
    requires
        now >= t,
    ensures
        spec_needs_update(Some(t), now, interval_hours) == (now - t > interval_hours * SECONDS_PER_HOUR),
        spec_needs_update(None, now, interval_hours),
{
}

} // verus!
