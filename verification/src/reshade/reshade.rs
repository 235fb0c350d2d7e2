//! `ReShade` version keys, their order, download URLs and version directories.
use vstd::prelude::*;

use crate::reshade::install::{is_dll_path, spec_is_dll_path};
use crate::reshade::paths::{join, spec_join};
use crate::text::{chars_of, ends_with, push_str, slice_to_vec, string_of_range};

verus! {

/// Suffix that marks the Addon Support variant of a version key.
pub const ADDON_SUFFIX: &'static str = "-Addon";

/// Sort key of a version directory name: three numbers and the Addon flag.
#[derive(Clone, Copy, Debug, PartialEq, Eq)]
pub struct VersionKey {
    /// First dotted number.
    pub major: u64,
    /// Second dotted number.
    pub minor: u64,
    /// Third dotted number.
    pub patch: u64,
    /// Whether the name ends with `-Addon`.
    pub addon: bool,
}

/// `c` is an ASCII decimal digit.
pub open spec fn is_digit(c: char) -> bool {
    '0' <= c && c <= '9'
}

/// The value of a run of decimal digits.
pub open spec fn decimal_value(d: Seq<char>) -> int
    decreases d.len(),
{
    if d.len() == 0 {
        0
    } else {
        decimal_value(d.drop_last()) * 10 + ((d.last() as int) - ('0' as int))
    }
}

/// The digits of `s` after an optional leading `+`, as `u64::from_str` reads them.
pub open spec fn unsigned_digits(s: Seq<char>) -> Seq<char> {
    if s.len() > 0 && s[0] == '+' {
        s.drop_first()
    } else {
        s
    }
}

/// `s.parse::<u64>().ok()`: an optional `+`, then at least one decimal digit and
/// nothing else, with a value that fits in 64 bits.
pub open spec fn spec_parse_u64(s: Seq<char>) -> Option<u64> {
    let d = unsigned_digits(s);
    if d.len() > 0 && (forall|i: int| 0 <= i < d.len() ==> is_digit(#[trigger] d[i]))
        && decimal_value(d) <= u64::MAX {
        Some(decimal_value(d) as u64)
    } else {
        None
    }
}

/// `s.parse::<u32>().ok()`, with the same rules as [`spec_parse_u64`].
pub open spec fn spec_parse_u32(s: Seq<char>) -> Option<u32> {
    match spec_parse_u64(s) {
        Some(v) => if v <= u32::MAX {
            Some(v as u32)
        } else {
            None
        },
        None => None,
    }
}

/// `s.parse::<u64>().unwrap_or(0)`.
pub open spec fn part_value(s: Seq<char>) -> u64 {
    match spec_parse_u64(s) {
        Some(v) => v,
        None => 0,
    }
}

/// Index of the first `.` in `s`, or `s.len()` when there is none.
pub open spec fn find_dot(s: Seq<char>) -> int
    decreases s.len(),
{
    if s.len() == 0 {
        0
    } else if s[0] == '.' {
        0
    } else {
        1 + find_dot(s.drop_first())
    }
}

/// The three numbers of `base.splitn(3, '.')`, each parsed with `unwrap_or(0)`,
/// and 0 for a missing part.
pub open spec fn spec_parts(base: Seq<char>) -> (u64, u64, u64) {
    let i1 = find_dot(base);
    if i1 >= base.len() {
        (part_value(base), 0, 0)
    } else {
        let r1 = base.subrange(i1 + 1, base.len() as int);
        let i2 = find_dot(r1);
        if i2 >= r1.len() {
            (part_value(base.subrange(0, i1)), part_value(r1), 0)
        } else {
            (
                part_value(base.subrange(0, i1)),
                part_value(r1.subrange(0, i2)),
                part_value(r1.subrange(i2 + 1, r1.len() as int)),
            )
        }
    }
}

/// The sort key of a version name such as `6.7.3`, `v6.7.3` or `6.7.3-Addon`:
/// the numbers are read after the `-Addon` suffix and one leading `v` are removed.
#[verifier::opaque]
pub open spec fn spec_version_key(s: Seq<char>) -> VersionKey {
    let addon = ADDON_SUFFIX@.is_suffix_of(s);
    let base = if addon {
        s.subrange(0, s.len() - ADDON_SUFFIX@.len())
    } else {
        s
    };
    let (major, minor, patch) = spec_parts(strip_v(base));
    VersionKey { major, minor, patch, addon }
}

/// Lexicographic order on version keys; the Addon variant follows the plain one.
pub open spec fn key_lt(a: VersionKey, b: VersionKey) -> bool {
    ||| a.major < b.major
    ||| (a.major == b.major && a.minor < b.minor)
    ||| (a.major == b.major && a.minor == b.minor && a.patch < b.patch)
    ||| (a.major == b.major && a.minor == b.minor && a.patch == b.patch && !a.addon && b.addon)
}

/// `a` sorts no later than `b`.
pub open spec fn key_le(a: VersionKey, b: VersionKey) -> bool {
    !key_lt(b, a)
}

/// `a` sorts strictly before `b`.
pub fn version_key_lt(a: &VersionKey, b: &VersionKey) -> (r: bool)
    ensures
        r == key_lt(*a, *b),
{
    if a.major != b.major {
        return a.major < b.major;
    }
    if a.minor != b.minor {
        return a.minor < b.minor;
    }
    if a.patch != b.patch {
        return a.patch < b.patch;
    }
    !a.addon && b.addon
}

proof fn lemma_decimal_take(d: Seq<char>, i: int)
    requires
        0 <= i < d.len(),
    ensures
        decimal_value(d.take(i + 1)) == decimal_value(d.take(i)) * 10 + ((d[i] as int) - ('0' as int)),
{
    assert(d.take(i + 1).drop_last() =~= d.take(i));
}

proof fn lemma_decimal_monotone(d: Seq<char>, j: int)
    requires
        0 <= j <= d.len(),
        forall|i: int| 0 <= i < d.len() ==> is_digit(#[trigger] d[i]),
    ensures
        decimal_value(d) >= decimal_value(d.take(j)),
        decimal_value(d.take(j)) >= 0,
    decreases d.len(),
{
    if d.len() == 0 {
        assert(d.take(j) =~= d);
    } else if j == d.len() {
        assert(d.take(j) =~= d);
        lemma_decimal_monotone(d.drop_last(), 0);
        assert(d.drop_last().take(0) =~= Seq::<char>::empty());
    } else {
        lemma_decimal_monotone(d.drop_last(), j);
        assert(d.drop_last().take(j) =~= d.take(j));
    }
}

/// `v[lo..hi].parse::<u64>().ok()`.
pub fn parse_u64(v: &[char], lo: usize, hi: usize) -> (r: Option<u64>)
    requires
        lo <= hi <= v@.len(),
    ensures
        r == spec_parse_u64(v@.subrange(lo as int, hi as int)),
{
    let ghost s = v@.subrange(lo as int, hi as int);
    let mut start = lo;
    if lo < hi && v[lo] == '+' {
        start = lo + 1;
    }
    let ghost d = unsigned_digits(s);
    assert(d =~= v@.subrange(start as int, hi as int));
    if start == hi {
        return None;
    }
    let mut acc: u64 = 0;
    let mut i = start;
    while i < hi
        invariant
            lo <= start <= i <= hi <= v@.len(),
            s == v@.subrange(lo as int, hi as int),
            d == unsigned_digits(s),
            d == v@.subrange(start as int, hi as int),
            forall|j: int| 0 <= j < i - start ==> is_digit(#[trigger] d[j]),
            acc == decimal_value(d.take(i - start)),
        decreases hi - i,
    {
        let c = v[i];
        if !('0' <= c && c <= '9') {
            assert(!is_digit(d[i - start]));
            assert(spec_parse_u64(s) is None);
            return None;
        }
        let dv: u64 = (c as u32 - '0' as u32) as u64;
        proof {
            lemma_decimal_take(d, i - start);
        }
        if acc > (u64::MAX - dv) / 10 {
            // the value so far no longer fits; any continuation either stops
            // being digits or grows further
            proof {
                let q = (u64::MAX - dv) / 10;
                assert(10 * q <= u64::MAX - dv);
                assert(acc >= q + 1);
                assert(acc * 10 + dv > u64::MAX);
                assert(decimal_value(d.take(i - start + 1)) > u64::MAX);
                if forall|j: int| 0 <= j < d.len() ==> is_digit(#[trigger] d[j]) {
                    lemma_decimal_monotone(d, i - start + 1);
                }
                assert(spec_parse_u64(s) is None);
            }
            return None;
        }
        acc = acc * 10 + dv;
        i = i + 1;
    }
    assert(d.take(d.len() as int) =~= d);
    Some(acc)
}

/// Index (relative to the whole vector) of the first `.` in `v[lo..hi]`, or `hi`.
fn find_dot_in(v: &[char], lo: usize, hi: usize) -> (r: usize)
    requires
        lo <= hi <= v@.len(),
    ensures
        r == lo + find_dot(v@.subrange(lo as int, hi as int)),
        lo <= r <= hi,
{
    let mut i = lo;
    while i < hi && v[i] != '.'
        invariant
            lo <= i <= hi <= v@.len(),
            find_dot(v@.subrange(lo as int, hi as int)) == (i - lo) + find_dot(
                v@.subrange(i as int, hi as int),
            ),
        decreases hi - i,
    {
        assert(v@.subrange(i as int, hi as int).drop_first() =~= v@.subrange(i + 1, hi as int));
        i = i + 1;
    }
    proof {
        lemma_find_dot_bound(v@.subrange(i as int, hi as int));
        if i == hi {
            assert(v@.subrange(i as int, hi as int).len() == 0);
        }
    }
    i
}

proof fn lemma_find_dot_bound(s: Seq<char>)
    ensures
        0 <= find_dot(s) <= s.len(),
        find_dot(s) < s.len() ==> s[find_dot(s)] == '.',
        forall|j: int| 0 <= j < find_dot(s) ==> s[j] != '.',
    decreases s.len(),
{
    if s.len() > 0 && s[0] != '.' {
        lemma_find_dot_bound(s.drop_first());
        assert forall|j: int| 0 <= j < find_dot(s) implies s[j] != '.' by {
            if j > 0 {
                assert(s[j] == s.drop_first()[j - 1]);
            }
        }
    }
}

/// The three numbers of `v[..hi].splitn(3, '.')`, as [`spec_parts`] states.
fn parts_of(v: &[char], hi: usize) -> (r: (u64, u64, u64))
    requires
        hi <= v@.len(),
    ensures
        r == spec_parts(v@.subrange(0, hi as int)),
{
    let ghost base = v@.subrange(0, hi as int);
    let i1 = find_dot_in(v, 0, hi);
    if i1 == hi {
        return (unwrap_zero(parse_u64(v, 0, hi)), 0u64, 0u64);
    }
    let i2 = find_dot_in(v, i1 + 1, hi);
    let ghost r1 = base.subrange(i1 + 1, base.len() as int);
    assert(r1 =~= v@.subrange(i1 + 1, hi as int));
    assert(base.subrange(0, i1 as int) =~= v@.subrange(0, i1 as int));
    let a = unwrap_zero(parse_u64(v, 0, i1));
    if i2 == hi {
        let b = unwrap_zero(parse_u64(v, i1 + 1, hi));
        (a, b, 0u64)
    } else {
        assert(r1.subrange(0, i2 - (i1 + 1)) =~= v@.subrange(i1 + 1, i2 as int));
        assert(r1.subrange(i2 - (i1 + 1) + 1, r1.len() as int) =~= v@.subrange(i2 + 1, hi as int));
        let b = unwrap_zero(parse_u64(v, i1 + 1, i2));
        let c = unwrap_zero(parse_u64(v, i2 + 1, hi));
        (a, b, c)
    }
}

/// Parses a version key (e.g. `"6.7.3"`, `"v6.7.3"` or `"6.7.3-Addon"`) into its
/// sort key.
///
/// The `-Addon` suffix sorts after the base version of the same number, and a
/// leading `v` is not part of the numbers.
pub fn parse_version_key(s: &str) -> (k: VersionKey)
    ensures
        k == spec_version_key(s@),
{
    reveal(spec_version_key);
    let v = chars_of(s);
    let suffix = chars_of(ADDON_SUFFIX);
    let addon = ends_with(v.as_slice(), suffix.as_slice());
    let hi = if addon {
        v.len() - suffix.len()
    } else {
        v.len()
    };
    let ghost base = v@.subrange(0, hi as int);
    assert(v@.subrange(0, v@.len() as int) =~= v@);
    let lo: usize = if hi > 0 && v[0] == 'v' {
        1
    } else {
        0
    };
    let digits = slice_to_vec(v.as_slice(), lo, hi);
    assert(digits@ =~= strip_v(base));
    assert(digits@.subrange(0, digits@.len() as int) =~= digits@);
    let (major, minor, patch) = parts_of(digits.as_slice(), digits.len());
    VersionKey { major, minor, patch, addon }
}

/// `o.unwrap_or(0)`.
fn unwrap_zero(o: Option<u64>) -> (r: u64)
    ensures
        r == (match o {
            Some(v) => v,
            None => 0,
        }),
{
    match o {
        Some(v) => v,
        None => 0,
    }
}


/// The views of a sequence of strings.
pub open spec fn names(v: Seq<String>) -> Seq<Seq<char>> {
    v.map_values(|s: String| s@)
}

/// The members of `s` whose version key is `k`, in their order in `s`.
pub open spec fn with_key(s: Seq<Seq<char>>, k: VersionKey) -> Seq<Seq<char>> {
    s.filter(|x: Seq<char>| spec_version_key(x) == k)
}

/// Every member of `s` sorts no later than the members after it.
pub open spec fn sorted_by_version(s: Seq<Seq<char>>) -> bool {
    forall|i: int, j: int|
        0 <= i < j < s.len() ==> key_le(
            #[trigger] spec_version_key(s[i]),
            #[trigger] spec_version_key(s[j]),
        )
}

/// `out` is `inp` sorted stably by version key: sorted, and for each key the
/// members with that key appear in the same order as in `inp`.
pub open spec fn is_version_sort_of(out: Seq<Seq<char>>, inp: Seq<Seq<char>>) -> bool {
    &&& sorted_by_version(out)
    &&& forall|k: VersionKey| #[trigger] with_key(out, k) == with_key(inp, k)
}

proof fn lemma_with_key_single(x: Seq<char>, k: VersionKey)
    ensures
        with_key(seq![x], k) == (if spec_version_key(x) == k {
            seq![x]
        } else {
            Seq::<Seq<char>>::empty()
        }),
{
    let pred = |y: Seq<char>| spec_version_key(y) == k;
    Seq::<Seq<char>>::empty().lemma_filter_push(x, pred);
    assert(Seq::<Seq<char>>::empty().push(x) =~= seq![x]);
    reveal(Seq::filter);
}

proof fn lemma_insert_sorted(out: Seq<Seq<char>>, inp: Seq<Seq<char>>, p: int, x: Seq<char>)
    requires
        0 <= p <= out.len(),
        sorted_by_version(out),
        forall|j: int| 0 <= j < p ==> key_le(spec_version_key(out[j]), spec_version_key(x)),
        forall|j: int| p <= j < out.len() ==> key_lt(spec_version_key(x), spec_version_key(out[j])),
        forall|k: VersionKey| #[trigger] with_key(out, k) == with_key(inp, k),
    ensures
        is_version_sort_of(out.insert(p, x), inp.push(x)),
{
    let res = out.insert(p, x);
    let a = out.take(p);
    let c = out.skip(p);
    assert(res =~= a + seq![x] + c);
    assert(out =~= a + c);
    assert(inp.push(x) =~= inp + seq![x]);
    assert forall|i: int, j: int| 0 <= i < j < res.len() implies key_le(
        #[trigger] spec_version_key(res[i]),
        #[trigger] spec_version_key(res[j]),
    ) by {
        if j < p {
            assert(res[i] == out[i] && res[j] == out[j]);
        } else if j == p {
            assert(res[i] == out[i] && res[j] == x);
        } else if i < p {
            assert(res[i] == out[i] && res[j] == out[j - 1]);
        } else if i == p {
            assert(res[i] == x && res[j] == out[j - 1]);
        } else {
            assert(res[i] == out[i - 1] && res[j] == out[j - 1]);
        }
    }
    assert forall|k: VersionKey| #[trigger] with_key(res, k) == with_key(inp.push(x), k) by {
        let pred = |y: Seq<char>| spec_version_key(y) == k;
        assert(with_key(res, k) == res.filter(pred));
        assert(with_key(out, k) == out.filter(pred));
        assert(with_key(inp, k) == inp.filter(pred));
        assert(with_key(inp.push(x), k) == (inp + seq![x]).filter(pred));
        assert(with_key(seq![x], k) == seq![x].filter(pred));
        Seq::filter_distributes_over_add(a + seq![x], c, pred);
        Seq::filter_distributes_over_add(a, seq![x], pred);
        Seq::filter_distributes_over_add(a, c, pred);
        Seq::filter_distributes_over_add(inp, seq![x], pred);
        lemma_with_key_single(x, k);
        if spec_version_key(x) == k {
            assert(c.all(|y: Seq<char>| !pred(y))) by {
                assert forall|j: int| 0 <= j < c.len() implies !pred(c[j]) by {
                    assert(c[j] == out[p + j]);
                }
            }
            c.lemma_all_neg_filter_empty(pred);
            assert(c.filter(pred) =~= Seq::<Seq<char>>::empty());
            assert(res.filter(pred) =~= a.filter(pred) + seq![x]);
            assert((inp + seq![x]).filter(pred) =~= a.filter(pred) + seq![x]);
        } else {
            assert(seq![x].filter(pred) =~= Seq::<Seq<char>>::empty());
            assert(res.filter(pred) =~= a.filter(pred) + c.filter(pred));
            assert((inp + seq![x]).filter(pred) =~= a.filter(pred) + c.filter(pred));
        }
    }
}

/// Returns `items` sorted stably by version key, as `sort_by_key(parse_version_key)` does.
pub fn sort_versions(items: &Vec<String>) -> (r: Vec<String>)
    ensures
        is_version_sort_of(names(r@), names(items@)),
{
    let mut out: Vec<String> = Vec::new();
    let mut keys: Vec<VersionKey> = Vec::new();
    let mut i: usize = 0;
    assert(names(items@.take(0)) =~= names(out@));
    while i < items.len()
        invariant
            i <= items@.len(),
            out@.len() == keys@.len(),
            forall|j: int| 0 <= j < keys@.len() ==> keys@[j] == spec_version_key(#[trigger] out@[j]@),
            sorted_by_version(names(out@)),
            forall|k: VersionKey| #[trigger] with_key(names(out@), k) == with_key(names(items@.take(i as int)), k),
        decreases items.len() - i,
    {
        let x = items[i].clone();
        let kx = parse_version_key(x.as_str());
        let mut p: usize = 0;
        while p < keys.len() && !version_key_lt(&kx, &keys[p])
            invariant
                p <= keys@.len(),
                forall|j: int| 0 <= j < p ==> !key_lt(kx, #[trigger] keys@[j]),
            decreases keys.len() - p,
        {
            p = p + 1;
        }
        let ghost old_names = names(out@);
        proof {
            assert forall|j: int| 0 <= j < p implies key_le(spec_version_key(old_names[j]), spec_version_key(x@)) by {
                assert(keys@[j] == spec_version_key(out@[j]@));
            }
            assert forall|j: int| p <= j < old_names.len() implies key_lt(spec_version_key(x@), spec_version_key(old_names[j])) by {
                assert(keys@[p as int] == spec_version_key(out@[p as int]@));
                assert(keys@[j] == spec_version_key(out@[j]@));
                if j > p {
                    assert(key_le(spec_version_key(old_names[p as int]), spec_version_key(old_names[j])));
                }
            }
            lemma_insert_sorted(old_names, names(items@.take(i as int)), p as int, x@);
            assert(items@.take(i + 1) =~= items@.take(i as int).push(items@[i as int]));
            assert(names(items@.take(i + 1)) =~= names(items@.take(i as int)).push(x@));
        }
        out.insert(p, x);
        keys.insert(p, kx);
        assert(names(out@) =~= old_names.insert(p as int, items@[i as int]@));
        i = i + 1;
    }
    assert(items@.take(items@.len() as int) =~= items@);
    out
}


proof fn lemma_key_in_other(a: Seq<Seq<char>>, b: Seq<Seq<char>>, i: int) -> (j: int)
    requires
        0 <= i < b.len(),
        forall|k: VersionKey| #[trigger] with_key(a, k) == with_key(b, k),
    ensures
        0 <= j < a.len(),
        a[j] == b[i],
{
    let k = spec_version_key(b[i]);
    let pred = |y: Seq<char>| spec_version_key(y) == k;
    assert(with_key(b, k) == b.filter(pred));
    assert(with_key(a, k) == a.filter(pred));
    b.lemma_filter_contains(pred, i);
    a.lemma_filter_contains_rev(pred, b[i]);
    choose|j: int| 0 <= j < a.len() && a[j] == b[i]
}

proof fn lemma_with_key_drop_last(a: Seq<Seq<char>>, k: VersionKey)
    requires
        a.len() > 0,
    ensures
        with_key(a, k) == (if spec_version_key(a.last()) == k {
            with_key(a.drop_last(), k).push(a.last())
        } else {
            with_key(a.drop_last(), k)
        }),
{
    let pred = |y: Seq<char>| spec_version_key(y) == k;
    assert(a.drop_last().push(a.last()) =~= a);
    a.drop_last().lemma_filter_push(a.last(), pred);
}

proof fn lemma_same_classes_equal(a: Seq<Seq<char>>, b: Seq<Seq<char>>)
    requires
        sorted_by_version(a),
        sorted_by_version(b),
        forall|k: VersionKey| #[trigger] with_key(a, k) == with_key(b, k),
    ensures
        a == b,
    decreases a.len(),
{
    if a.len() == 0 {
        if b.len() > 0 {
            let j = lemma_key_in_other(a, b, 0);
        }
        assert(a =~= b);
    } else {
        if b.len() == 0 {
            let j = lemma_key_in_other(b, a, 0);
        }
        let ka = spec_version_key(a.last());
        let kb = spec_version_key(b.last());
        let ia = lemma_key_in_other(a, b, b.len() - 1);
        let ib = lemma_key_in_other(b, a, a.len() - 1);
        if ia < a.len() - 1 {
            assert(key_le(spec_version_key(a[ia]), spec_version_key(a[a.len() - 1])));
        }
        if ib < b.len() - 1 {
            assert(key_le(spec_version_key(b[ib]), spec_version_key(b[b.len() - 1])));
        }
        assert(ka == kb);
        lemma_with_key_drop_last(a, ka);
        lemma_with_key_drop_last(b, ka);
        assert(with_key(a, ka) == with_key(b, ka));
        assert(a.last() == with_key(a, ka).last());
        assert(b.last() == with_key(b, ka).last());
        assert forall|k: VersionKey| #[trigger] with_key(a.drop_last(), k) == with_key(b.drop_last(), k) by {
            lemma_with_key_drop_last(a, k);
            lemma_with_key_drop_last(b, k);
            assert(with_key(a, k) == with_key(b, k));
            if k == ka {
                assert(with_key(a.drop_last(), k) =~= with_key(a, k).drop_last());
                assert(with_key(b.drop_last(), k) =~= with_key(b, k).drop_last());
            }
        }
        assert(sorted_by_version(a.drop_last())) by {
            assert forall|i: int, j: int| 0 <= i < j < a.drop_last().len() implies key_le(
                #[trigger] spec_version_key(a.drop_last()[i]),
                #[trigger] spec_version_key(a.drop_last()[j]),
            ) by {
                assert(a.drop_last()[i] == a[i] && a.drop_last()[j] == a[j]);
            }
        }
        assert(sorted_by_version(b.drop_last())) by {
            assert forall|i: int, j: int| 0 <= i < j < b.drop_last().len() implies key_le(
                #[trigger] spec_version_key(b.drop_last()[i]),
                #[trigger] spec_version_key(b.drop_last()[j]),
            ) by {
                assert(b.drop_last()[i] == b[i] && b.drop_last()[j] == b[j]);
            }
        }
        lemma_same_classes_equal(a.drop_last(), b.drop_last());
        assert(a =~= a.drop_last().push(a.last()));
        assert(b =~= b.drop_last().push(b.last()));
    }
}

/// Law: sorting by version key has exactly one result. Two sequences that are
/// both stable version sorts of the same input are equal.
pub proof fn lemma_version_sort_unique(a: Seq<Seq<char>>, b: Seq<Seq<char>>, inp: Seq<Seq<char>>)
    requires
        is_version_sort_of(a, inp),
        is_version_sort_of(b, inp),
    ensures
        a == b,
{
    assert forall|k: VersionKey| #[trigger] with_key(a, k) == with_key(b, k) by {
        assert(with_key(a, k) == with_key(inp, k));
        assert(with_key(b, k) == with_key(inp, k));
    }
    lemma_same_classes_equal(a, b);
}

/// Law: a sequence already sorted by version key is its own version sort.
pub proof fn lemma_sorted_is_own_sort(s: Seq<Seq<char>>)
    requires
        sorted_by_version(s),
    ensures
        is_version_sort_of(s, s),
{
}


/// Law: the Addon Support variant of a version sorts right after the plain
/// version of the same number.
pub proof fn lemma_addon_sorts_after_base(v: Seq<char>)
    requires
        !ADDON_SUFFIX@.is_suffix_of(v),
    ensures
        key_lt(spec_version_key(v), spec_version_key(v + ADDON_SUFFIX@)),
        spec_version_key(v).major == spec_version_key(v + ADDON_SUFFIX@).major,
        spec_version_key(v).minor == spec_version_key(v + ADDON_SUFFIX@).minor,
        spec_version_key(v).patch == spec_version_key(v + ADDON_SUFFIX@).patch,
{
    reveal(spec_version_key);
    let w = v + ADDON_SUFFIX@;
    assert(ADDON_SUFFIX@.is_suffix_of(w)) by {
        assert forall|j: int| 0 <= j < ADDON_SUFFIX@.len() implies ADDON_SUFFIX@[j] == w[w.len() - ADDON_SUFFIX@.len() + j] by {
        }
    }
    assert(w.subrange(0, w.len() - ADDON_SUFFIX@.len()) =~= v);
}

/// `s` with one leading `v` removed, as `strip_prefix('v').unwrap_or(s)` does.
pub open spec fn strip_v(s: Seq<char>) -> Seq<char> {
    if s.len() > 0 && s[0] == 'v' {
        s.drop_first()
    } else {
        s
    }
}

/// Removes one leading `v` from a version string.
pub fn strip_v_prefix(s: &str) -> (r: String)
    ensures
        r@ == strip_v(s@),
{
    let v = chars_of(s);
    if v.len() > 0 && v[0] == 'v' {
        let r = string_of_range(v.as_slice(), 1, v.len());
        assert(v@.subrange(1, v@.len() as int) =~= v@.drop_first());
        r
    } else {
        let r = string_of_range(v.as_slice(), 0, v.len());
        assert(v@.subrange(0, v@.len() as int) =~= v@);
        r
    }
}

/// Common prefix of the `ReShade` installer download URLs.
pub const DOWNLOAD_URL_PREFIX: &'static str = "https://reshade.me/downloads/ReShade_Setup_";

/// Ending of the Addon Support installer URL.
pub const ADDON_URL_SUFFIX: &'static str = "_Addon.exe";

/// Ending of the standard installer URL.
pub const URL_SUFFIX: &'static str = ".exe";

/// The installer URL for `version` (with any leading `v` removed).
pub open spec fn spec_download_url(version: Seq<char>, addon_support: bool) -> Seq<char> {
    DOWNLOAD_URL_PREFIX@ + strip_v(version) + (if addon_support {
        ADDON_URL_SUFFIX@
    } else {
        URL_SUFFIX@
    })
}

/// Builds the download URL for a given `ReShade` version.
pub fn download_url(version: &str, addon_support: bool) -> (r: String)
    ensures
        r@ == spec_download_url(version@, addon_support),
{
    let v = strip_v_prefix(version);
    let mut r = DOWNLOAD_URL_PREFIX.to_owned();
    push_str(&mut r, v.as_str());
    if addon_support {
        push_str(&mut r, ADDON_URL_SUFFIX);
    } else {
        push_str(&mut r, URL_SUFFIX);
    }
    r
}

/// Name of the directory under the data directory that holds the versions.
pub const RESHADE_DIR: &'static str = "reshade";

/// `base/reshade/version`.
pub open spec fn spec_version_dir(base: Seq<char>, version: Seq<char>) -> Seq<char> {
    spec_join(spec_join(base, RESHADE_DIR@), version)
}

/// Returns the versioned directory for a given `ReShade` version.
pub fn version_dir(base: &str, version: &str) -> (r: String)
    ensures
        r@ == spec_version_dir(base@, version@),
{
    let d = join(base, RESHADE_DIR);
    join(d.as_str(), version)
}

/// The cache key of a download: the version, with `-Addon` for the Addon Support variant.
pub open spec fn spec_version_dir_key(version: Seq<char>, addon: bool) -> Seq<char> {
    if addon {
        version + ADDON_SUFFIX@
    } else {
        version
    }
}

/// Builds the cache key (`6.7.3` or `6.7.3-Addon`) of a download.
pub fn version_dir_key(version: &str, addon: bool) -> (r: String)
    ensures
        r@ == spec_version_dir_key(version@, addon),
{
    let mut r = version.to_owned();
    if addon {
        push_str(&mut r, ADDON_SUFFIX);
    }
    r
}

/// Splits a cache key into the version and the Addon flag, as
/// `strip_suffix("-Addon")` does.
pub open spec fn spec_split_version_key(key: Seq<char>) -> (Seq<char>, bool) {
    if ADDON_SUFFIX@.is_suffix_of(key) {
        (key.subrange(0, key.len() - ADDON_SUFFIX@.len()), true)
    } else {
        (key, false)
    }
}

/// Splits a cache key such as `6.7.3-Addon` into `("6.7.3", true)`.
pub fn split_version_key(key: &str) -> (r: (String, bool))
    ensures
        (r.0@, r.1) == spec_split_version_key(key@),
{
    let v = chars_of(key);
    let suffix = chars_of(ADDON_SUFFIX);
    if ends_with(v.as_slice(), suffix.as_slice()) {
        (string_of_range(v.as_slice(), 0, v.len() - suffix.len()), true)
    } else {
        assert(v@.subrange(0, v@.len() as int) =~= v@);
        (string_of_range(v.as_slice(), 0, v.len()), false)
    }
}

/// Law: splitting the cache key of a download gives back its version and
/// variant, for every version that does not itself end with `-Addon`.
pub proof fn lemma_version_dir_key_roundtrip(version: Seq<char>, addon: bool)
    requires
        !ADDON_SUFFIX@.is_suffix_of(version),
    ensures
        spec_split_version_key(spec_version_dir_key(version, addon)) == (version, addon),
{
    if addon {
        let w = version + ADDON_SUFFIX@;
        assert(ADDON_SUFFIX@.is_suffix_of(w)) by {
            assert forall|j: int| 0 <= j < ADDON_SUFFIX@.len() implies ADDON_SUFFIX@[j] == w[w.len() - ADDON_SUFFIX@.len() + j] by {
            }
        }
        assert(w.subrange(0, w.len() - ADDON_SUFFIX@.len()) =~= version);
    }
}

/// What `semver` answers for `Version::parse(a)? < Version::parse(b)?`:
/// `None` when either string is not a SemVer version.
pub uninterp spec fn semver_order(a: Seq<char>, b: Seq<char>) -> Option<bool>;

/// Calls `semver::Version::parse` on both strings and compares the results with
/// `<` (`Version`'s derived total order: major, minor, patch, pre-release, build).
/// The contract names the answer and states only that the order is a strict
/// order: it is never true both ways, and never true of a string and itself.
#[verifier::external_body]
fn semver_less(a: &str, b: &str) -> (r: Option<bool>)
    ensures
        r == semver_order(a@, b@),
        r is Some <==> semver_order(b@, a@) is Some,
        r == Some(true) ==> semver_order(b@, a@) == Some(false),
        a@ == b@ ==> r != Some(true),
{
    match (semver::Version::parse(a), semver::Version::parse(b)) {
        (Ok(x), Ok(y)) => Some(x < y),
        _ => None,
    }
}

/// `installed` is strictly older than `latest` (each with any leading `v` removed).
pub open spec fn spec_is_version_outdated(installed: Seq<char>, latest: Seq<char>) -> bool {
    semver_order(strip_v(installed), strip_v(latest)) == Some(true)
}

/// Returns `true` if `installed` is strictly older than `latest`.
///
/// Both strings may carry a leading `v`. Returns `false` if either string
/// cannot be parsed as a semver version.
pub fn is_version_outdated(installed: &str, latest: &str) -> (r: bool)
    ensures
        r == spec_is_version_outdated(installed@, latest@),
        r ==> !spec_is_version_outdated(latest@, installed@),
        strip_v(installed@) == strip_v(latest@) ==> !r,
{
    let i = strip_v_prefix(installed);
    let l = strip_v_prefix(latest);
    match semver_less(i.as_str(), l.as_str()) {
        Some(b) => b,
        None => false,
    }
}


/// The first tag name of the GitHub tags list, which lists the most recent
/// release first; `None` for an empty list.
pub fn first_tag(tags: Vec<String>) -> (r: Option<String>)
    ensures
        tags@.len() == 0 ==> r is None,
        tags@.len() > 0 ==> r == Some(tags@[0]),
{
    let mut tags = tags;
    if tags.len() == 0 {
        None
    } else {
        Some(tags.remove(0))
    }
}

/// The entry names of the zip archive `bytes`, in the archive's order, as
/// `zip::ZipArchive` reads them; `None` when the archive or one of its entry
/// headers cannot be read.
pub uninterp spec fn zip_entry_names(bytes: Seq<u8>) -> Option<Seq<Seq<char>>>;

/// The uncompressed contents of entry `index` of the zip archive `bytes`, as
/// `zip::ZipArchive` reads them; `None` when the entry cannot be read.
pub uninterp spec fn zip_entry_data(bytes: Seq<u8>, index: nat) -> Option<Seq<u8>>;

/// The character sequences of an optional list of strings.
pub open spec fn opt_names(o: Option<Vec<String>>) -> Option<Seq<Seq<char>>> {
    match o {
        Some(v) => Some(names(v@)),
        None => None,
    }
}

/// The bytes of an optional byte vector.
pub open spec fn opt_bytes(o: Option<Vec<u8>>) -> Option<Seq<u8>> {
    match o {
        Some(v) => Some(v@),
        None => None,
    }
}

/// Calls `zip::ZipArchive::new` on `bytes`, then `by_index` and `name` for each
/// entry. The contract names the list without restating the zip format.
#[verifier::external_body]
fn read_zip_names(bytes: &[u8]) -> (r: Option<Vec<String>>)
    ensures
        opt_names(r) == zip_entry_names(bytes@),
{
    let mut archive = zip::ZipArchive::new(std::io::Cursor::new(bytes)).ok()?;
    let mut out = Vec::new();
    for i in 0..archive.len() {
        out.push(archive.by_index(i).ok()?.name().to_owned());
    }
    Some(out)
}

/// Calls `zip::ZipArchive::new` on `bytes`, then `by_index(index)` and reads
/// the entry to its end. The contract names the contents without restating
/// the zip format.
#[verifier::external_body]
fn read_zip_entry(bytes: &[u8], index: usize) -> (r: Option<Vec<u8>>)
    ensures
        opt_bytes(r) == zip_entry_data(bytes@, index as nat),
{
    let mut archive = zip::ZipArchive::new(std::io::Cursor::new(bytes)).ok()?;
    let mut entry = archive.by_index(index).ok()?;
    let mut buf = Vec::new();
    std::io::Read::read_to_end(&mut entry, &mut buf).ok()?;
    Some(buf)
}

/// The DLL entries among the first `n` entries named `ns`: name and contents,
/// in archive order; `None` when one of them cannot be read.
pub open spec fn dll_entries_upto(bytes: Seq<u8>, ns: Seq<Seq<char>>, n: nat) -> Option<Seq<(Seq<char>, Seq<u8>)>>
    decreases n,
{
    if n == 0 {
        Some(Seq::empty())
    } else {
        match dll_entries_upto(bytes, ns, (n - 1) as nat) {
            None => None,
            Some(acc) => if spec_is_dll_path(ns[n - 1]) {
                match zip_entry_data(bytes, (n - 1) as nat) {
                    Some(d) => Some(acc.push((ns[n - 1], d))),
                    None => None,
                }
            } else {
                Some(acc)
            },
        }
    }
}

/// The DLL entries of the zip archive `bytes` (names whose extension is `dll`
/// in any case), with their contents, in archive order; `None` when the bytes
/// are not a readable archive or a DLL entry cannot be read.
pub open spec fn spec_dll_entries(bytes: Seq<u8>) -> Option<Seq<(Seq<char>, Seq<u8>)>> {
    match zip_entry_names(bytes) {
        None => None,
        Some(ns) => dll_entries_upto(bytes, ns, ns.len()),
    }
}

/// The plain value of a list of archive entries.
pub open spec fn entries_view(v: Seq<(String, Vec<u8>)>) -> Seq<(Seq<char>, Seq<u8>)> {
    v.map_values(|e: (String, Vec<u8>)| (e.0@, e.1@))
}

/// Reads the `.dll` entries of the zip archive in `bytes`: what extracting a
/// `ReShade` installer writes. `None` when the bytes are not a valid archive
/// or an entry cannot be read.
pub fn dll_entries(bytes: &[u8]) -> (r: Option<Vec<(String, Vec<u8>)>>)
    ensures
        match r {
            Some(v) => spec_dll_entries(bytes@) == Some(entries_view(v@)),
            None => spec_dll_entries(bytes@) is None,
        },
{
    let ns = match read_zip_names(bytes) {
        Some(ns) => ns,
        None => return None,
    };
    let ghost nsv = names(ns@);
    let mut out: Vec<(String, Vec<u8>)> = Vec::new();
    let mut i: usize = 0;
    assert(entries_view(out@) =~= Seq::<(Seq<char>, Seq<u8>)>::empty());
    while i < ns.len()
        invariant
            i <= ns@.len(),
            nsv == names(ns@),
            zip_entry_names(bytes@) == Some(nsv),
            dll_entries_upto(bytes@, nsv, i as nat) == Some(entries_view(out@)),
        decreases ns.len() - i,
    {
        assert(nsv[i as int] == ns@[i as int]@);
        if is_dll_path(ns[i].as_str()) {
            match read_zip_entry(bytes, i) {
                Some(d) => {
                    let ghost before = out@;
                    out.push((ns[i].clone(), d));
                    assert(entries_view(out@) =~= entries_view(before).push((nsv[i as int], d@)));
                },
                None => {
                    assert(dll_entries_upto(bytes@, nsv, (i + 1) as nat) is None);
                    proof {
                        lemma_dll_entries_none_stays(bytes@, nsv, (i + 1) as nat, nsv.len());
                    }
                    return None;
                },
            }
        }
        i = i + 1;
    }
    Some(out)
}

proof fn lemma_dll_entries_none_stays(bytes: Seq<u8>, ns: Seq<Seq<char>>, m: nat, n: nat)
    requires
        m <= n,
        dll_entries_upto(bytes, ns, m) is None,
    ensures
        dll_entries_upto(bytes, ns, n) is None,
    decreases n - m,
{
    if m < n {
        lemma_dll_entries_none_stays(bytes, ns, (m + 1) as nat, n);
    }
}

} // verus!
