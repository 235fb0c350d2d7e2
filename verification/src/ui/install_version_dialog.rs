//! The dialog that installs a specific `ReShade` version by number: the
//! validation of the number, the key it forms and the duplicate check.
use vstd::prelude::*;

use crate::reshade::config::contains_name;
use crate::reshade::reshade::{names, ADDON_SUFFIX};
use crate::text::{chars_of, push_str};

verus! {

/// Every character of `s` is an ASCII digit.
pub open spec fn all_digits(s: Seq<char>) -> bool {
    forall|k: int| 0 <= k < s.len() ==> '0' <= #[trigger] s[k] && s[k] <= '9'
}

/// `t` is `X.Y.Z`: three non-empty runs of ASCII digits joined by dots.
pub open spec fn spec_is_valid_version(t: Seq<char>) -> bool {
    exists|i: int, j: int|
        0 < i && i + 1 < j && j + 1 < t.len() && #[trigger] t[i] == '.' && #[trigger] t[j] == '.'
            && all_digits(t.subrange(0, i)) && all_digits(t.subrange(i + 1, j))
            && all_digits(t.subrange(j + 1, t.len() as int))
}

/// The version key of the dialog's fields: `v`, the text, and `-Addon` for the
/// Addon Support variant.
pub open spec fn spec_dialog_key(text: Seq<char>, addon: bool) -> Seq<char> {
    if addon {
        "v"@ + text + ADDON_SUFFIX@
    } else {
        "v"@ + text
    }
}

fn is_digit(c: char) -> (r: bool)
    ensures
        r == ('0' <= c && c <= '9'),
{
    '0' <= c && c <= '9'
}

/// Returns `true` when `text` matches the `X.Y.Z` format (three dot-separated
/// non-empty numeric parts).
pub fn is_valid_version(text: &str) -> (r: bool)
    ensures
        r == spec_is_valid_version(text@),
{
    let v = chars_of(text);
    let n = v.len();
    let mut ok = true;
    let mut dots: usize = 0;
    let mut first: usize = 0;
    let mut second: usize = 0;
    let mut k: usize = 0;
    while k < n
        invariant
            n == v@.len(),
            v@ == text@,
            k <= n,
            dots <= 3,
            ok <==> (forall|m: int| 0 <= m < k ==> (#[trigger] v@[m] == '.' || ('0' <= v@[m] && v@[m] <= '9'))),
            dots >= 1 ==> first < k && v@[first as int] == '.',
            dots >= 2 ==> first < second && second < k && v@[second as int] == '.',
            dots == 0 ==> forall|m: int| 0 <= m < k ==> #[trigger] v@[m] != '.',
            dots == 1 ==> forall|m: int| 0 <= m < k && #[trigger] v@[m] == '.' ==> m == first,
            dots == 2 ==> forall|m: int| 0 <= m < k && #[trigger] v@[m] == '.' ==> m == first || m == second,
            dots == 1 ==> forall|m: int| 0 <= m < first ==> #[trigger] v@[m] != '.',
            dots >= 2 ==> forall|m: int| 0 <= m < first ==> #[trigger] v@[m] != '.',
            dots == 3 ==> exists|m: int| 0 <= m < k && #[trigger] v@[m] == '.' && m != first && m != second,
        decreases n - k,
    {
        let c = v[k];
        if c == '.' {
            if dots == 0 {
                first = k;
                dots = 1;
            } else if dots == 1 {
                second = k;
                dots = 2;
            } else if dots == 2 {
                dots = 3;
                assert(v@[k as int] == '.' && k != first && k != second);
            }
        } else if !is_digit(c) {
            ok = false;
        }
        k = k + 1;
    }
    let r = ok && dots == 2 && first > 0 && second > first + 1 && second + 1 < n;
    proof {
        let t = text@;
        if r {
            assert(all_digits(t.subrange(0, first as int))) by {
                assert forall|q: int| 0 <= q < first implies '0' <= #[trigger] t.subrange(0, first as int)[q] && t.subrange(0, first as int)[q] <= '9' by {
                    assert(v@[q] != '.');
                }
            }
            assert(all_digits(t.subrange(first + 1, second as int))) by {
                assert forall|q: int| 0 <= q < second - first - 1 implies '0' <= #[trigger] t.subrange(first + 1, second as int)[q]
                    && t.subrange(first + 1, second as int)[q] <= '9' by {
                    let m = first + 1 + q;
                    assert(v@[m] == '.' || ('0' <= v@[m] && v@[m] <= '9'));
                }
            }
            assert(all_digits(t.subrange(second + 1, t.len() as int))) by {
                assert forall|q: int| 0 <= q < t.len() - second - 1 implies '0' <= #[trigger] t.subrange(second + 1, t.len() as int)[q]
                    && t.subrange(second + 1, t.len() as int)[q] <= '9' by {
                    let m = second + 1 + q;
                    assert(v@[m] == '.' || ('0' <= v@[m] && v@[m] <= '9'));
                }
            }
            assert(t[first as int] == '.' && t[second as int] == '.');
        } else if spec_is_valid_version(t) {
            let (i, j) = choose|i: int, j: int|
                0 < i && i + 1 < j && j + 1 < t.len() && #[trigger] t[i] == '.' && #[trigger] t[j] == '.'
                    && all_digits(t.subrange(0, i)) && all_digits(t.subrange(i + 1, j))
                    && all_digits(t.subrange(j + 1, t.len() as int));
            // every position other than i and j holds a digit
            assert forall|m: int| 0 <= m < t.len() && m != i && m != j implies '0' <= #[trigger] t[m] && t[m] <= '9' by {
                if m < i {
                    assert(t.subrange(0, i)[m] == t[m]);
                } else if m < j {
                    assert(t.subrange(i + 1, j)[m - i - 1] == t[m]);
                } else {
                    assert(t.subrange(j + 1, t.len() as int)[m - j - 1] == t[m]);
                }
            }
            assert(ok) by {
                assert forall|m: int| 0 <= m < k implies (#[trigger] v@[m] == '.' || ('0' <= v@[m] && v@[m] <= '9')) by {
                    if m != i && m != j {
                        assert('0' <= t[m] && t[m] <= '9');
                    }
                }
            }
            if dots == 0 {
                assert(v@[i] == '.');
            } else if dots == 1 {
                assert(v@[i] == '.' && v@[j] == '.');
            } else if dots == 3 {
                let m = choose|m: int| 0 <= m < k && #[trigger] v@[m] == '.' && m != first && m != second;
                assert(v@[m] == '.');
                assert(first == i || first == j) by {
                    if first != i && first != j {
                        assert('0' <= t[first as int]);
                    }
                }
                assert(second == i || second == j) by {
                    if second != i && second != j {
                        assert('0' <= t[second as int]);
                    }
                }
                if m != i && m != j {
                    assert('0' <= t[m]);
                }
            } else {
                // dots == 2: the two dots found are i and j
                assert(v@[i] == '.' && v@[j] == '.');
                assert(first == i) by {
                    if first != i {
                        assert(i == second);
                        assert(v@[j] == '.' && (j == first || j == second));
                    }
                }
                assert(second == j);
            }
        }
    }
    r
}

/// The version key of the fields: `v`, the text, and `-Addon` for the Addon
/// Support variant.
pub fn dialog_key(text: &str, addon: bool) -> (r: String)
    ensures
        r@ == spec_dialog_key(text@, addon),
{
    let mut r = "v".to_owned();
    push_str(&mut r, text);
    if addon {
        push_str(&mut r, ADDON_SUFFIX);
    }
    r
}

/// The dialog, apart from its widgets.
#[derive(Debug)]
pub struct InstallVersionModel {
    /// The version field.
    pub version_text: String,
    /// The Addon Support box.
    pub addon: bool,
    /// The version keys already installed.
    pub installed_versions: Vec<String>,
}

impl InstallVersionModel {
    /// An empty dialog.
    pub fn new() -> (r: Self)
        ensures
            r.version_text@.len() == 0,
            !r.addon,
            r.installed_versions@.len() == 0,
    {
        InstallVersionModel { version_text: String::new(), addon: false, installed_versions: Vec::new() }
    }

    /// Clears the fields for a fresh open.
    pub fn reset(&mut self)
        ensures
            final(self).version_text@.len() == 0,
            !final(self).addon,
            final(self).installed_versions == old(self).installed_versions,
    {
        self.version_text = String::new();
        self.addon = false;
    }

    /// The version field changed.
    pub fn set_version(&mut self, v: String)
        ensures
            final(self).version_text == v,
            final(self).addon == old(self).addon,
            final(self).installed_versions == old(self).installed_versions,
    {
        self.version_text = v;
    }

    /// The Addon Support box changed.
    pub fn set_addon(&mut self, v: bool)
        ensures
            final(self).addon == v,
            final(self).version_text == old(self).version_text,
            final(self).installed_versions == old(self).installed_versions,
    {
        self.addon = v;
    }

    /// The installed version keys changed.
    pub fn update_installed_versions(&mut self, v: Vec<String>)
        ensures
            final(self).installed_versions == v,
            final(self).version_text == old(self).version_text,
            final(self).addon == old(self).addon,
    {
        self.installed_versions = v;
    }

    /// The text is `X.Y.Z`.
    pub fn is_valid(&self) -> (r: bool)
        ensures
            r == spec_is_valid_version(self.version_text@),
    {
        is_valid_version(self.version_text.as_str())
    }

    /// The key the fields form.
    pub fn version_key(&self) -> (r: String)
        ensures
            r@ == spec_dialog_key(self.version_text@, self.addon),
    {
        dialog_key(self.version_text.as_str(), self.addon)
    }

    /// The key the fields form is already installed.
    pub fn is_duplicate(&self) -> (r: bool)
        ensures
            r == names(self.installed_versions@).contains(spec_dialog_key(self.version_text@, self.addon)),
    {
        let key = self.version_key();
        contains_name(&self.installed_versions, key.as_str())
    }

    /// The Install button is enabled: the number is valid and not installed.
    pub fn confirm_enabled(&self) -> (r: bool)
        ensures
            r == (spec_is_valid_version(self.version_text@) && !names(self.installed_versions@).contains(
                spec_dialog_key(self.version_text@, self.addon),
            )),
    {
        self.is_valid() && !self.is_duplicate()
    }

    /// The user confirmed: a valid, new key is requested and the fields clear;
    /// otherwise nothing happens.
    pub fn confirm(&mut self) -> (r: Option<String>)
        ensures
            ({
                let key = spec_dialog_key(old(self).version_text@, old(self).addon);
                let ok = spec_is_valid_version(old(self).version_text@) && !names(old(self).installed_versions@).contains(key);
                &&& ok ==> (r matches Some(k) && k@ == key) && final(self).version_text@.len() == 0 && !final(self).addon
                &&& !ok ==> r is None && final(self).version_text == old(self).version_text && final(self).addon == old(self).addon
            }),
            final(self).installed_versions == old(self).installed_versions,
    {
        if !self.is_valid() || self.is_duplicate() {
            return None;
        }
        let key = self.version_key();
        self.version_text = String::new();
        self.addon = false;
        Some(key)
    }
}

} // verus!
