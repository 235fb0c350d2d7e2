//! The dialog that picks which cached `ReShade` version to install into a game.
use vstd::prelude::*;

use crate::reshade::reshade::{strip_v, strip_v_prefix};
use crate::ui::preferences::spec_version_title;

verus! {

/// The title of a row: the key without its leading `v`, with the Addon Support
/// variant spelled out.
pub open spec fn spec_pick_title(key: Seq<char>, addon_label: Seq<char>) -> Seq<char> {
    spec_version_title(strip_v(key), addon_label)
}

/// Formats a version key for display: `"v6.3.0"` gives `"6.3.0"`, `"v6.3.0-Addon"`
/// gives `"6.3.0 \u{2014} <label>"`; `addon_label` is the localized "Addon Support" label.
pub fn display_title(key: &str, addon_label: &str) -> (r: String)
    ensures
        r@ == spec_pick_title(key@, addon_label@),
{
    let base = strip_v_prefix(key);
    crate::ui::preferences::display_title(base.as_str(), addon_label)
}

/// The dialog, apart from its widgets.
#[derive(Debug)]
pub struct PickVersionModel {
    /// The version key selected, if any.
    pub selected: Option<String>,
}

impl PickVersionModel {
    /// A dialog with nothing selected.
    pub fn new() -> (r: Self)
        ensures
            r.selected is None,
    {
        PickVersionModel { selected: None }
    }

    /// Opens the dialog on `versions`: the selection clears and the row titles
    /// come back in order. With no version the dialog is not shown, which an
    /// empty list of titles says.
    pub fn open(&mut self, versions: &Vec<String>, addon_label: &str) -> (titles: Vec<String>)
        ensures
            final(self).selected is None,
            titles@.len() == versions@.len(),
            forall|i: int| 0 <= i < versions@.len() ==> (#[trigger] titles@[i])@ == spec_pick_title(versions@[i]@, addon_label@),
    {
        self.selected = None;
        let mut titles: Vec<String> = Vec::new();
        let mut i: usize = 0;
        while i < versions.len()
            invariant
                i <= versions@.len(),
                titles@.len() == i,
                forall|j: int| 0 <= j < i ==> (#[trigger] titles@[j])@ == spec_pick_title(versions@[j]@, addon_label@),
            decreases versions.len() - i,
        {
            titles.push(display_title(versions[i].as_str(), addon_label));
            i = i + 1;
        }
        titles
    }

    /// A row was chosen.
    pub fn select_version(&mut self, v: String)
        ensures
            final(self).selected == Some(v),
    {
        self.selected = Some(v);
    }

    /// The dialog was cancelled: the selection clears.
    pub fn cancel(&mut self)
        ensures
            final(self).selected is None,
    {
        self.selected = None;
    }

    /// The Install button is enabled: a version is selected.
    pub fn confirm_enabled(&self) -> (r: bool)
        ensures
            r == self.selected is Some,
    {
        self.selected.is_some()
    }

    /// Install was clicked: the selected version is chosen and the selection
    /// clears; with none selected nothing happens.
    pub fn confirm(&mut self) -> (r: Option<String>)
        ensures
            r == old(self).selected,
            final(self).selected is None,
    {
        self.selected.take()
    }
}

} // verus!
