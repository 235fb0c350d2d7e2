//! The Preferences page: which version rows it shows, which operations are in
//! flight, and what it asks the window to do, for each message it receives.
use vstd::prelude::*;

use crate::text::opt_chars;

use crate::reshade::config::{
    clone_config, config_view,
    contains_name, drop_name, lemma_filter_no_dup, lemma_push_fresh_no_dup, without_name, GlobalConfig,
};
use crate::reshade::reshade::{
    names, spec_split_version_key, spec_version_dir_key, split_version_key, version_dir_key, ADDON_SUFFIX,
};
use crate::text::{chars_of, ends_with, push_str, str_eq};

verus! {

/// How an installed version row is labelled.
#[derive(Debug, Clone, Copy, PartialEq, Eq, Structural)]
pub enum VersionStatus {
    /// The current version, and the latest.
    CurrentLatest,
    /// The current version.
    Current,
    /// The latest version.
    Latest,
    /// Neither.
    Plain,
}

/// The label of a version row, as `subtitle_for_installed` chooses it.
pub open spec fn spec_status(version: Seq<char>, current: Option<Seq<char>>, is_latest: bool) -> VersionStatus {
    let is_current = current == Some(version);
    if is_current && is_latest {
        VersionStatus::CurrentLatest
    } else if is_current {
        VersionStatus::Current
    } else if is_latest {
        VersionStatus::Latest
    } else {
        VersionStatus::Plain
    }
}

/// Chooses the label of the row for `version`.
pub fn status_for(version: &str, current: &Option<String>, is_latest: bool) -> (r: VersionStatus)
    ensures
        r == spec_status(version@, opt_chars(*current), is_latest),
{
    let is_current = match current {
        Some(c) => str_eq(c.as_str(), version),
        None => false,
    };
    if is_current && is_latest {
        VersionStatus::CurrentLatest
    } else if is_current {
        VersionStatus::Current
    } else if is_latest {
        VersionStatus::Latest
    } else {
        VersionStatus::Plain
    }
}

/// The title of a version row: `6.7.3 \u{2014} <label>` for the Addon Support
/// variant `6.7.3-Addon`, the key itself otherwise.
pub open spec fn spec_version_title(key: Seq<char>, addon_label: Seq<char>) -> Seq<char> {
    let (base, addon) = spec_split_version_key(key);
    if addon {
        base + " \u{2014} "@ + addon_label
    } else {
        key
    }
}

/// Formats a version key for display; `addon_label` is the localized
/// "Addon Support" label.
pub fn display_title(version_key: &str, addon_label: &str) -> (r: String)
    ensures
        r@ == spec_version_title(version_key@, addon_label@),
{
    let (base, addon) = split_version_key(version_key);
    if addon {
        let mut r = base;
        push_str(&mut r, " \u{2014} ");
        push_str(&mut r, addon_label);
        r
    } else {
        version_key.to_owned()
    }
}

/// What the page asks of its widgets and of the window.
#[derive(Debug, Clone)]
pub enum PrefsAction {
    /// Tell the window the configuration changed.
    ConfigChanged(GlobalConfig),
    /// Ask the window to download this version key.
    InstallVersionRequested(String),
    /// Ask the window to remove this version key.
    RemoveVersionRequested(String),
    /// Show the "no versions installed" row.
    ShowPlaceholder,
    /// Hide the "no versions installed" row.
    HidePlaceholder,
    /// Add a row for an installed version; its remove button is disabled when in use.
    AddInstalledRow {
        /// Version key.
        key: String,
        /// Row label.
        status: VersionStatus,
        /// At least one game links to this version.
        in_use: bool,
    },
    /// Change the label of an installed version row.
    SetRowStatus {
        /// Version key.
        key: String,
        /// Row label.
        status: VersionStatus,
    },
    /// Remove the row of an installed version.
    RemoveInstalledRow(String),
    /// Add the "latest not installed" row for a variant.
    AddDownloadRow {
        /// Version key offered for download.
        key: String,
        /// The Addon Support variant.
        addon: bool,
    },
    /// Remove the "latest not installed" row of a variant.
    RemoveDownloadRow {
        /// The Addon Support variant.
        addon: bool,
    },
    /// Show the spinner of a variant's download row.
    BeginDownload {
        /// The Addon Support variant.
        addon: bool,
    },
    /// Restore the button of a variant's download row.
    FinishDownload {
        /// The Addon Support variant.
        addon: bool,
    },
    /// Show the spinner of an installed version's row.
    BeginRemoval(String),
    /// Restore the remove button of an installed version's row.
    FinishRemoval(String),
}

/// The plain value of a page action: keys as character sequences.
pub enum PrefsActionView {
    /// See [`PrefsAction::ConfigChanged`].
    ConfigChanged((Seq<(Seq<char>, Seq<char>, Option<Seq<char>>, bool)>, bool, u64)),
    /// See [`PrefsAction::InstallVersionRequested`].
    InstallVersionRequested(Seq<char>),
    /// See [`PrefsAction::RemoveVersionRequested`].
    RemoveVersionRequested(Seq<char>),
    /// See [`PrefsAction::ShowPlaceholder`].
    ShowPlaceholder,
    /// See [`PrefsAction::HidePlaceholder`].
    HidePlaceholder,
    /// See [`PrefsAction::AddInstalledRow`]: key, label, in use.
    AddInstalledRow(Seq<char>, VersionStatus, bool),
    /// See [`PrefsAction::SetRowStatus`]: key, label.
    SetRowStatus(Seq<char>, VersionStatus),
    /// See [`PrefsAction::RemoveInstalledRow`].
    RemoveInstalledRow(Seq<char>),
    /// See [`PrefsAction::AddDownloadRow`]: key, Addon Support variant.
    AddDownloadRow(Seq<char>, bool),
    /// See [`PrefsAction::RemoveDownloadRow`].
    RemoveDownloadRow(bool),
    /// See [`PrefsAction::BeginDownload`].
    BeginDownload(bool),
    /// See [`PrefsAction::FinishDownload`].
    FinishDownload(bool),
    /// See [`PrefsAction::BeginRemoval`].
    BeginRemoval(Seq<char>),
    /// See [`PrefsAction::FinishRemoval`].
    FinishRemoval(Seq<char>),
}

/// The plain value of an action.
pub open spec fn prefs_action_view(a: PrefsAction) -> PrefsActionView {
    match a {
        PrefsAction::ConfigChanged(c) => PrefsActionView::ConfigChanged(config_view(c)),
        PrefsAction::InstallVersionRequested(k) => PrefsActionView::InstallVersionRequested(k@),
        PrefsAction::RemoveVersionRequested(k) => PrefsActionView::RemoveVersionRequested(k@),
        PrefsAction::ShowPlaceholder => PrefsActionView::ShowPlaceholder,
        PrefsAction::HidePlaceholder => PrefsActionView::HidePlaceholder,
        PrefsAction::AddInstalledRow { key, status, in_use } => PrefsActionView::AddInstalledRow(key@, status, in_use),
        PrefsAction::SetRowStatus { key, status } => PrefsActionView::SetRowStatus(key@, status),
        PrefsAction::RemoveInstalledRow(k) => PrefsActionView::RemoveInstalledRow(k@),
        PrefsAction::AddDownloadRow { key, addon } => PrefsActionView::AddDownloadRow(key@, addon),
        PrefsAction::RemoveDownloadRow { addon } => PrefsActionView::RemoveDownloadRow(addon),
        PrefsAction::BeginDownload { addon } => PrefsActionView::BeginDownload(addon),
        PrefsAction::FinishDownload { addon } => PrefsActionView::FinishDownload(addon),
        PrefsAction::BeginRemoval(k) => PrefsActionView::BeginRemoval(k@),
        PrefsAction::FinishRemoval(k) => PrefsActionView::FinishRemoval(k@),
    }
}

/// The plain values of a list of actions.
pub open spec fn prefs_actions_view(s: Seq<PrefsAction>) -> Seq<PrefsActionView> {
    s.map_values(|a: PrefsAction| prefs_action_view(a))
}

proof fn lemma_view_push(s: Seq<PrefsAction>, a: PrefsAction)
    ensures
        prefs_actions_view(s.push(a)) == prefs_actions_view(s).push(prefs_action_view(a)),
{
    assert(prefs_actions_view(s.push(a)) =~= prefs_actions_view(s).push(prefs_action_view(a)));
}

/// `x` as a one-action list when `b`, nothing otherwise.
pub open spec fn act_if(b: bool, x: PrefsActionView) -> Seq<PrefsActionView> {
    if b {
        seq![x]
    } else {
        Seq::empty()
    }
}

/// What the latest version does to one variant's rows: an installed row of
/// `key` is relabelled as the latest; otherwise a download row is added unless
/// one is shown already.
pub open spec fn spec_latest_row_acts(
    rows: Seq<Seq<char>>,
    key: Seq<char>,
    current: Option<Seq<char>>,
    has_download_row: bool,
    addon: bool,
) -> Seq<PrefsActionView> {
    if rows.contains(key) {
        seq![PrefsActionView::SetRowStatus(key, spec_status(key, current, true))]
    } else {
        act_if(!has_download_row, PrefsActionView::AddDownloadRow(key, addon))
    }
}

/// What a finished removal of `key` does about the download rows and the
/// placeholder: with a latest version known, the removed variant's download
/// row comes back unless it is shown; otherwise, with no row left, the
/// placeholder shows unless it is shown.
pub open spec fn spec_after_removal_acts(
    latest: Option<Seq<char>>,
    key: Seq<char>,
    rows_left: Seq<Seq<char>>,
    has_download_row: bool,
    has_addon_download_row: bool,
    placeholder: bool,
) -> Seq<PrefsActionView> {
    match latest {
        Some(l) => if is_addon_key(key) {
            act_if(!has_addon_download_row, PrefsActionView::AddDownloadRow(spec_version_dir_key(l, true), true))
        } else {
            act_if(!has_download_row, PrefsActionView::AddDownloadRow(l, false))
        },
        None => act_if(rows_left.len() == 0 && !placeholder, PrefsActionView::ShowPlaceholder),
    }
}

/// An input message of the Preferences page.
#[derive(Debug, Clone)]
pub enum PrefsControl {
    /// Replace the configuration shown.
    SetConfig(GlobalConfig),
    /// The user toggled "merge shaders".
    MergeShadersChanged(bool),
    /// The user changed the update interval (whole hours).
    UpdateIntervalChanged(u64),
    /// The latest version became known.
    SetLatestVersion(String),
    /// The user asked to download this version key.
    InstallLatestVersion(String),
    /// The user asked to remove this installed version.
    RemoveVersion(String),
    /// A download of this version key finished.
    VersionDownloadComplete(String),
    /// A removal of this version key finished.
    VersionRemoveComplete(String),
    /// A version operation failed, with this message.
    VersionOpError(String),
}

/// A version key that `before` holds in flight and `after` does not may leave
/// only on its own completion, or on an error.
pub open spec fn leaves_only_on_completion(before: Seq<Seq<char>>, after: Seq<Seq<char>>, msg: PrefsControl) -> bool {
    forall|n: Seq<char>| #[trigger] before.contains(n) && !after.contains(n) ==> {
        ||| msg matches PrefsControl::VersionDownloadComplete(k) && k@ == n
        ||| msg matches PrefsControl::VersionRemoveComplete(k) && k@ == n
        ||| msg is VersionOpError
    }
}

proof fn lemma_drop_name_keeps_others(s: Seq<Seq<char>>, x: Seq<char>, n: Seq<char>)
    requires
        s.contains(n),
        n != x,
    ensures
        drop_name(s, x).contains(n),
{
    let i = choose|i: int| 0 <= i < s.len() && s[i] == n;
    s.lemma_filter_contains(crate::reshade::config::other_than(x), i);
}

/// The Preferences page, apart from its widgets.
#[derive(Debug)]
pub struct PreferencesModel {
    /// The configuration shown.
    pub config: GlobalConfig,
    /// Locally installed version keys.
    pub installed_versions: Vec<String>,
    /// The version marked current, if any.
    pub current_version: Option<String>,
    /// Versions linked by at least one game.
    pub versions_in_use: Vec<String>,
    /// Keys of the installed version rows shown.
    pub version_rows: Vec<String>,
    /// The latest known version.
    pub latest_version: Option<String>,
    /// The standard "latest not installed" row is shown.
    pub has_download_row: bool,
    /// The Addon Support "latest not installed" row is shown.
    pub has_addon_download_row: bool,
    /// The "no versions installed" row is shown.
    pub placeholder: bool,
    /// Version keys with an operation in flight.
    pub active_ops: Vec<String>,
}

/// A key names the Addon Support variant.
pub open spec fn is_addon_key(key: Seq<char>) -> bool {
    ADDON_SUFFIX@.is_suffix_of(key)
}

fn is_addon(key: &str) -> (r: bool)
    ensures
        r == is_addon_key(key@),
{
    let v = chars_of(key);
    let s = chars_of(ADDON_SUFFIX);
    ends_with(v.as_slice(), s.as_slice())
}

impl PreferencesModel {
    /// The page is consistent: the placeholder shows only while no version row,
    /// no download row and no latest version are known, a download row only
    /// once the latest version is known, and no key is in flight twice.
    pub open spec fn wf(&self) -> bool {
        &&& self.placeholder ==> self.version_rows@.len() == 0 && !self.has_download_row
            && !self.has_addon_download_row && self.latest_version is None
        &&& self.has_download_row ==> self.latest_version is Some
        &&& self.has_addon_download_row ==> self.latest_version is Some
        &&& names(self.active_ops@).no_duplicates()
    }

    /// Builds the page for the installed versions, and the rows it shows first.
    pub fn init(
        config: GlobalConfig,
        installed_versions: Vec<String>,
        current_version: Option<String>,
        versions_in_use: Vec<String>,
    ) -> (r: (Self, Vec<PrefsAction>))
        ensures
            r.0.wf(),
            r.0.installed_versions@ == installed_versions@,
            names(r.0.version_rows@) == names(installed_versions@),
            r.0.placeholder == (installed_versions@.len() == 0),
            r.0.active_ops@.len() == 0,
            r.0.latest_version is None,
            installed_versions@.len() == 0 ==> r.1@.len() == 1 && r.1@[0] is ShowPlaceholder,
            installed_versions@.len() > 0 ==> r.1@.len() == installed_versions@.len() && forall|i: int|
                0 <= i < r.1@.len() ==> (#[trigger] r.1@[i] matches PrefsAction::AddInstalledRow { key, status, in_use }
                    && key@ == installed_versions@[i]@
                    && status == spec_status(installed_versions@[i]@, opt_chars(current_version), false)
                    && in_use == names(versions_in_use@).contains(installed_versions@[i]@)),
    {
        let mut acts: Vec<PrefsAction> = Vec::new();
        let mut rows: Vec<String> = Vec::new();
        let placeholder = installed_versions.len() == 0;
        if placeholder {
            acts.push(PrefsAction::ShowPlaceholder);
        } else {
            let mut i: usize = 0;
            while i < installed_versions.len()
                invariant
                    i <= installed_versions@.len(),
                    acts@.len() == i,
                    rows@.len() == i,
                    forall|j: int| 0 <= j < i ==> (#[trigger] rows@[j])@ == installed_versions@[j]@,
                    forall|j: int|
                        0 <= j < i ==> (#[trigger] acts@[j] matches PrefsAction::AddInstalledRow { key, status, in_use }
                            && key@ == installed_versions@[j]@
                            && status == spec_status(installed_versions@[j]@, opt_chars(current_version), false)
                            && in_use == names(versions_in_use@).contains(installed_versions@[j]@)),
                decreases installed_versions.len() - i,
            {
                let v = &installed_versions[i];
                let status = status_for(v.as_str(), &current_version, false);
                let in_use = contains_name(&versions_in_use, v.as_str());
                acts.push(PrefsAction::AddInstalledRow { key: v.clone(), status, in_use });
                rows.push(v.clone());
                i = i + 1;
            }
        }
        assert(names(rows@) =~= names(installed_versions@));
        let model = PreferencesModel {
            config,
            installed_versions,
            current_version,
            versions_in_use,
            version_rows: rows,
            latest_version: None,
            has_download_row: false,
            has_addon_download_row: false,
            placeholder,
            active_ops: Vec::new(),
        };
        (model, acts)
    }

    /// The window replaced the configuration shown.
    pub fn set_config(&mut self, config: GlobalConfig)
        ensures
            final(self).config == config,
            final(self).installed_versions == old(self).installed_versions,
            final(self).current_version == old(self).current_version,
            final(self).versions_in_use == old(self).versions_in_use,
            final(self).version_rows == old(self).version_rows,
            final(self).latest_version == old(self).latest_version,
            final(self).has_download_row == old(self).has_download_row,
            final(self).has_addon_download_row == old(self).has_addon_download_row,
            final(self).placeholder == old(self).placeholder,
            final(self).active_ops == old(self).active_ops,
    {
        self.config = config;
    }

    /// The user toggled "merge shaders": a change is reported once.
    pub fn merge_shaders_changed(&mut self, value: bool) -> (acts: Vec<PrefsAction>)
        ensures
            final(self).config.merge_shaders == value,
            final(self).config.update_interval_hours == old(self).config.update_interval_hours,
            final(self).config.shader_repos@ == old(self).config.shader_repos@,
            old(self).config.merge_shaders == value ==> acts@.len() == 0 && final(self).config == old(self).config,
            final(self).current_version == old(self).current_version,
            final(self).versions_in_use == old(self).versions_in_use,
            old(self).config.merge_shaders != value ==> acts@.len() == 1 && (acts@[0] matches PrefsAction::ConfigChanged(c)
                && config_view(c) == config_view(final(self).config)),
            final(self).installed_versions@ == old(self).installed_versions@,
            final(self).version_rows@ == old(self).version_rows@,
            final(self).active_ops@ == old(self).active_ops@,
            final(self).placeholder == old(self).placeholder,
            final(self).latest_version == old(self).latest_version,
            final(self).has_download_row == old(self).has_download_row,
            final(self).has_addon_download_row == old(self).has_addon_download_row,
    {
        let mut acts: Vec<PrefsAction> = Vec::new();
        if self.config.merge_shaders != value {
            self.config.merge_shaders = value;
            acts.push(PrefsAction::ConfigChanged(clone_config(&self.config)));
        }
        acts
    }

    /// The user changed the update interval (whole hours): a change is reported once.
    pub fn update_interval_changed(&mut self, hours: u64) -> (acts: Vec<PrefsAction>)
        ensures
            final(self).config.update_interval_hours == hours,
            final(self).config.merge_shaders == old(self).config.merge_shaders,
            final(self).config.shader_repos@ == old(self).config.shader_repos@,
            old(self).config.update_interval_hours == hours ==> acts@.len() == 0 && final(self).config == old(self).config,
            final(self).current_version == old(self).current_version,
            final(self).versions_in_use == old(self).versions_in_use,
            old(self).config.update_interval_hours != hours ==> acts@.len() == 1 && (acts@[0] matches PrefsAction::ConfigChanged(c)
                && config_view(c) == config_view(final(self).config)),
            final(self).installed_versions@ == old(self).installed_versions@,
            final(self).version_rows@ == old(self).version_rows@,
            final(self).active_ops@ == old(self).active_ops@,
            final(self).placeholder == old(self).placeholder,
            final(self).latest_version == old(self).latest_version,
            final(self).has_download_row == old(self).has_download_row,
            final(self).has_addon_download_row == old(self).has_addon_download_row,
    {
        let mut acts: Vec<PrefsAction> = Vec::new();
        if self.config.update_interval_hours != hours {
            self.config.update_interval_hours = hours;
            acts.push(PrefsAction::ConfigChanged(clone_config(&self.config)));
        }
        acts
    }

    /// The latest version became known: its row (or its download row) and the
    /// Addon Support variant's are shown, and the placeholder goes.
    pub fn set_latest_version(&mut self, version: String) -> (acts: Vec<PrefsAction>)
        requires
            old(self).wf(),
        ensures
            final(self).wf(),
            final(self).latest_version matches Some(l) && l@ == version@,
            !final(self).placeholder,
            final(self).has_download_row == (old(self).has_download_row || !names(old(self).version_rows@).contains(version@)),
            final(self).has_addon_download_row == (old(self).has_addon_download_row || !names(old(self).version_rows@).contains(spec_version_dir_key(version@, true))),
            final(self).version_rows@ == old(self).version_rows@,
            final(self).active_ops@ == old(self).active_ops@,
            final(self).installed_versions@ == old(self).installed_versions@,
            final(self).current_version == old(self).current_version,
            final(self).versions_in_use == old(self).versions_in_use,
            final(self).config == old(self).config,
            prefs_actions_view(acts@) == act_if(old(self).placeholder, PrefsActionView::HidePlaceholder)
                + spec_latest_row_acts(names(old(self).version_rows@), version@,
                    opt_chars(old(self).current_version), old(self).has_download_row, false)
                + spec_latest_row_acts(names(old(self).version_rows@), spec_version_dir_key(version@, true),
                    opt_chars(old(self).current_version), old(self).has_addon_download_row, true),
    {
        let ghost rows = names(self.version_rows@);
        let ghost cur = opt_chars(self.current_version);
        let ghost part1 = act_if(self.placeholder, PrefsActionView::HidePlaceholder);
        let ghost part2 = spec_latest_row_acts(rows, version@, cur, self.has_download_row, false);
        let mut acts: Vec<PrefsAction> = Vec::new();
        let addon_key = version_dir_key(version.as_str(), true);
        if self.placeholder {
            self.placeholder = false;
            proof { lemma_view_push(acts@, PrefsAction::HidePlaceholder); }
            acts.push(PrefsAction::HidePlaceholder);
        }
        assert(prefs_actions_view(acts@) =~= part1);
        if contains_name(&self.version_rows, version.as_str()) {
            let status = status_for(version.as_str(), &self.current_version, true);
            let a = PrefsAction::SetRowStatus { key: version.clone(), status };
            proof { lemma_view_push(acts@, a); }
            acts.push(a);
        } else if !self.has_download_row {
            let a = PrefsAction::AddDownloadRow { key: version.clone(), addon: false };
            proof { lemma_view_push(acts@, a); }
            acts.push(a);
            self.has_download_row = true;
        }
        assert(prefs_actions_view(acts@) =~= part1 + part2);
        let ghost part3 = spec_latest_row_acts(rows, addon_key@, cur, self.has_addon_download_row, true);
        let ghost before3 = prefs_actions_view(acts@);
        if contains_name(&self.version_rows, addon_key.as_str()) {
            let status = status_for(addon_key.as_str(), &self.current_version, true);
            let a = PrefsAction::SetRowStatus { key: addon_key, status };
            proof { lemma_view_push(acts@, a); }
            acts.push(a);
        } else if !self.has_addon_download_row {
            let a = PrefsAction::AddDownloadRow { key: addon_key, addon: true };
            proof { lemma_view_push(acts@, a); }
            acts.push(a);
            self.has_addon_download_row = true;
        }
        assert(prefs_actions_view(acts@) =~= before3 + part3);
        self.latest_version = Some(version);
        acts
    }

    /// The user asked to download a version key: ignored while an operation on
    /// that key is in flight.
    pub fn install_latest_version(&mut self, key: String) -> (acts: Vec<PrefsAction>)
        requires
            old(self).wf(),
        ensures
            final(self).wf(),
            names(old(self).active_ops@).contains(key@) ==> acts@.len() == 0 && final(self).active_ops@ == old(self).active_ops@,
            !names(old(self).active_ops@).contains(key@) ==> names(final(self).active_ops@) == names(old(self).active_ops@).push(key@)
                && acts@.len() == 2
                && (acts@[0] matches PrefsAction::BeginDownload { addon } && addon == is_addon_key(key@))
                && (acts@[1] matches PrefsAction::InstallVersionRequested(k) && k@ == key@),
            final(self).version_rows@ == old(self).version_rows@,
            final(self).placeholder == old(self).placeholder,
            final(self).latest_version == old(self).latest_version,
            final(self).has_download_row == old(self).has_download_row,
            final(self).has_addon_download_row == old(self).has_addon_download_row,
    {
        let mut acts: Vec<PrefsAction> = Vec::new();
        if contains_name(&self.active_ops, key.as_str()) {
            return acts;
        }
        let ghost before = self.active_ops@;
        self.active_ops.push(key.clone());
        proof {
            assert(names(self.active_ops@) =~= names(before).push(key@));
            lemma_push_fresh_no_dup(names(before), key@);
        }
        acts.push(PrefsAction::BeginDownload { addon: is_addon(key.as_str()) });
        acts.push(PrefsAction::InstallVersionRequested(key));
        acts
    }

    /// The user asked to remove an installed version: ignored while an
    /// operation on that key is in flight.
    pub fn remove_version(&mut self, key: String) -> (acts: Vec<PrefsAction>)
        requires
            old(self).wf(),
        ensures
            final(self).wf(),
            names(old(self).active_ops@).contains(key@) ==> acts@.len() == 0 && final(self).active_ops@ == old(self).active_ops@,
            !names(old(self).active_ops@).contains(key@) ==> names(final(self).active_ops@) == names(old(self).active_ops@).push(key@)
                && acts@.len() == 2
                && (acts@[0] matches PrefsAction::BeginRemoval(k) && k@ == key@)
                && (acts@[1] matches PrefsAction::RemoveVersionRequested(k) && k@ == key@),
            final(self).version_rows@ == old(self).version_rows@,
            final(self).placeholder == old(self).placeholder,
            final(self).latest_version == old(self).latest_version,
    {
        let mut acts: Vec<PrefsAction> = Vec::new();
        if contains_name(&self.active_ops, key.as_str()) {
            return acts;
        }
        let ghost before = self.active_ops@;
        self.active_ops.push(key.clone());
        proof {
            assert(names(self.active_ops@) =~= names(before).push(key@));
            lemma_push_fresh_no_dup(names(before), key@);
        }
        acts.push(PrefsAction::BeginRemoval(key.clone()));
        acts.push(PrefsAction::RemoveVersionRequested(key));
        acts
    }

    /// A download finished: the variant's download row goes, the version gets
    /// an installed row, and its key is no longer in flight.
    pub fn version_download_complete(&mut self, key: String) -> (acts: Vec<PrefsAction>)
        requires
            old(self).wf(),
        ensures
            final(self).wf(),
            !final(self).placeholder,
            names(final(self).version_rows@) == names(old(self).version_rows@).push(key@),
            names(final(self).installed_versions@) == names(old(self).installed_versions@).push(key@),
            names(final(self).active_ops@) == drop_name(names(old(self).active_ops@), key@),
            is_addon_key(key@) ==> !final(self).has_addon_download_row && final(self).has_download_row == old(self).has_download_row,
            !is_addon_key(key@) ==> !final(self).has_download_row && final(self).has_addon_download_row == old(self).has_addon_download_row,
            final(self).latest_version == old(self).latest_version,
            final(self).current_version == old(self).current_version,
            final(self).versions_in_use == old(self).versions_in_use,
            final(self).config == old(self).config,
            prefs_actions_view(acts@) == seq![PrefsActionView::FinishDownload(is_addon_key(key@))]
                + act_if(
                    if is_addon_key(key@) { old(self).has_addon_download_row } else { old(self).has_download_row },
                    PrefsActionView::RemoveDownloadRow(is_addon_key(key@)),
                )
                + act_if(old(self).placeholder, PrefsActionView::HidePlaceholder)
                + seq![PrefsActionView::AddInstalledRow(key@, spec_status(key@, opt_chars(old(self).current_version), true),
                    names(old(self).versions_in_use@).contains(key@))],
    {
        let ghost addon_k = is_addon_key(key@);
        let ghost p1 = seq![PrefsActionView::FinishDownload(addon_k)];
        let ghost p2 = act_if(
            if addon_k { self.has_addon_download_row } else { self.has_download_row },
            PrefsActionView::RemoveDownloadRow(addon_k),
        );
        let ghost p3 = act_if(self.placeholder, PrefsActionView::HidePlaceholder);
        let mut acts: Vec<PrefsAction> = Vec::new();
        let addon = is_addon(key.as_str());
        proof { lemma_view_push(acts@, PrefsAction::FinishDownload { addon }); }
        acts.push(PrefsAction::FinishDownload { addon });
        assert(prefs_actions_view(acts@) =~= p1);
        if addon {
            if self.has_addon_download_row {
                self.has_addon_download_row = false;
                proof { lemma_view_push(acts@, PrefsAction::RemoveDownloadRow { addon: true }); }
                acts.push(PrefsAction::RemoveDownloadRow { addon: true });
            }
        } else if self.has_download_row {
            self.has_download_row = false;
            proof { lemma_view_push(acts@, PrefsAction::RemoveDownloadRow { addon: false }); }
            acts.push(PrefsAction::RemoveDownloadRow { addon: false });
        }
        assert(prefs_actions_view(acts@) =~= p1 + p2);
        if self.placeholder {
            self.placeholder = false;
            proof { lemma_view_push(acts@, PrefsAction::HidePlaceholder); }
            acts.push(PrefsAction::HidePlaceholder);
        }
        assert(prefs_actions_view(acts@) =~= p1 + p2 + p3);
        let status = status_for(key.as_str(), &self.current_version, true);
        let in_use = contains_name(&self.versions_in_use, key.as_str());
        let row = PrefsAction::AddInstalledRow { key: key.clone(), status, in_use };
        proof { lemma_view_push(acts@, row); }
        acts.push(row);
        let ghost n = acts@.len() - 1;
        let ghost rows0 = self.version_rows@;
        let ghost inst0 = self.installed_versions@;
        self.version_rows.push(key.clone());
        self.installed_versions.push(key.clone());
        assert(names(self.version_rows@) =~= names(rows0).push(key@));
        assert(names(self.installed_versions@) =~= names(inst0).push(key@));
        let ghost ops0 = names(self.active_ops@);
        self.active_ops = without_name(&self.active_ops, key.as_str());
        proof {
            lemma_filter_no_dup(ops0, key@);
        }
        assert(acts@[n] matches PrefsAction::AddInstalledRow { key: k, status, in_use } && k@ == key@);
        acts
    }

    /// A removal finished: the row goes, and when the latest version is known
    /// the variant's download row comes back; with nothing left and no latest
    /// version the placeholder shows.
    pub fn version_remove_complete(&mut self, key: String) -> (acts: Vec<PrefsAction>)
        requires
            old(self).wf(),
        ensures
            final(self).wf(),
            names(final(self).version_rows@) == drop_name(names(old(self).version_rows@), key@),
            names(final(self).installed_versions@) == drop_name(names(old(self).installed_versions@), key@),
            names(final(self).active_ops@) == drop_name(names(old(self).active_ops@), key@),
            old(self).latest_version is Some && is_addon_key(key@) ==> final(self).has_addon_download_row,
            old(self).latest_version is Some && !is_addon_key(key@) ==> final(self).has_download_row,
            old(self).latest_version is None ==> (final(self).placeholder == (old(self).placeholder || final(self).version_rows@.len() == 0)),
            final(self).latest_version == old(self).latest_version,
            final(self).current_version == old(self).current_version,
            final(self).versions_in_use == old(self).versions_in_use,
            final(self).config == old(self).config,
            prefs_actions_view(acts@) == seq![PrefsActionView::FinishRemoval(key@)]
                + act_if(names(old(self).version_rows@).contains(key@), PrefsActionView::RemoveInstalledRow(key@))
                + spec_after_removal_acts(opt_chars(old(self).latest_version), key@,
                    drop_name(names(old(self).version_rows@), key@), old(self).has_download_row,
                    old(self).has_addon_download_row, old(self).placeholder),
    {
        let ghost p1 = seq![PrefsActionView::FinishRemoval(key@)];
        let ghost p2 = act_if(names(self.version_rows@).contains(key@), PrefsActionView::RemoveInstalledRow(key@));
        let ghost p3 = spec_after_removal_acts(opt_chars(self.latest_version), key@,
            drop_name(names(self.version_rows@), key@), self.has_download_row,
            self.has_addon_download_row, self.placeholder);
        let mut acts: Vec<PrefsAction> = Vec::new();
        let fin = PrefsAction::FinishRemoval(key.clone());
        proof { lemma_view_push(acts@, fin); }
        acts.push(fin);
        assert(prefs_actions_view(acts@) =~= p1);
        if contains_name(&self.version_rows, key.as_str()) {
            let rm = PrefsAction::RemoveInstalledRow(key.clone());
            proof { lemma_view_push(acts@, rm); }
            acts.push(rm);
        }
        assert(prefs_actions_view(acts@) =~= p1 + p2);
        let ghost before3 = prefs_actions_view(acts@);
        let ghost rows0 = names(self.version_rows@);
        self.version_rows = without_name(&self.version_rows, key.as_str());
        proof {
            if self.placeholder {
                assert(rows0 =~= Seq::<Seq<char>>::empty());
                reveal_with_fuel(Seq::filter, 1);
                assert(names(self.version_rows@).len() == 0);
            }
        }
        self.installed_versions = without_name(&self.installed_versions, key.as_str());
        let addon = is_addon(key.as_str());
        match &self.latest_version {
            Some(latest) => {
                if addon && !self.has_addon_download_row {
                    let addon_key = version_dir_key(latest.as_str(), true);
                    let a = PrefsAction::AddDownloadRow { key: addon_key, addon: true };
                    proof { lemma_view_push(acts@, a); }
                    acts.push(a);
                    self.has_addon_download_row = true;
                } else if !addon && !self.has_download_row {
                    let a = PrefsAction::AddDownloadRow { key: latest.clone(), addon: false };
                    proof { lemma_view_push(acts@, a); }
                    acts.push(a);
                    self.has_download_row = true;
                }
            },
            None => {
                if self.version_rows.len() == 0 && !self.placeholder {
                    proof { lemma_view_push(acts@, PrefsAction::ShowPlaceholder); }
                    acts.push(PrefsAction::ShowPlaceholder);
                    self.placeholder = true;
                }
            },
        }
        assert(prefs_actions_view(acts@) =~= before3 + p3);
        let ghost ops0 = names(self.active_ops@);
        self.active_ops = without_name(&self.active_ops, key.as_str());
        proof {
            lemma_filter_no_dup(ops0, key@);
        }
        acts
    }

    /// An operation failed: nothing is in flight any more, and every spinner stops.
    pub fn version_op_error(&mut self) -> (acts: Vec<PrefsAction>)
        requires
            old(self).wf(),
        ensures
            final(self).wf(),
            final(self).active_ops@.len() == 0,
            final(self).version_rows@ == old(self).version_rows@,
            final(self).placeholder == old(self).placeholder,
            final(self).has_download_row == old(self).has_download_row,
            final(self).has_addon_download_row == old(self).has_addon_download_row,
            acts@.len() == old(self).version_rows@.len() + 2,
            forall|i: int| 0 <= i < old(self).version_rows@.len() ==> (#[trigger] acts@[i] matches PrefsAction::FinishRemoval(k) && k@ == old(self).version_rows@[i]@),
            acts@[old(self).version_rows@.len() as int] matches PrefsAction::FinishDownload { addon } && !addon,
            acts@[(old(self).version_rows@.len() + 1) as int] matches PrefsAction::FinishDownload { addon } && addon,
    {
        self.active_ops = Vec::new();
        let mut acts: Vec<PrefsAction> = Vec::new();
        let mut i: usize = 0;
        while i < self.version_rows.len()
            invariant
                i <= self.version_rows@.len(),
                acts@.len() == i,
                forall|j: int| 0 <= j < i ==> (#[trigger] acts@[j] matches PrefsAction::FinishRemoval(k) && k@ == self.version_rows@[j]@),
            decreases self.version_rows.len() - i,
        {
            acts.push(PrefsAction::FinishRemoval(self.version_rows[i].clone()));
            i = i + 1;
        }
        acts.push(PrefsAction::FinishDownload { addon: false });
        acts.push(PrefsAction::FinishDownload { addon: true });
        proof {
            assert(names(self.active_ops@) =~= Seq::<Seq<char>>::empty());
        }
        acts
    }

    /// Everything but the configuration is as in `old`.
    pub open spec fn same_page(&self, old: &Self) -> bool {
        &&& self.installed_versions@ == old.installed_versions@
        &&& self.current_version == old.current_version
        &&& self.versions_in_use == old.versions_in_use
        &&& self.version_rows@ == old.version_rows@
        &&& self.latest_version == old.latest_version
        &&& self.has_download_row == old.has_download_row
        &&& self.has_addon_download_row == old.has_addon_download_row
        &&& self.placeholder == old.placeholder
        &&& self.active_ops@ == old.active_ops@
    }

    /// Handles one input message: each message does what the method of the
    /// same name does. A key already in flight is ignored by a download or a
    /// removal request; otherwise it joins the keys in flight and exactly one
    /// request for it goes to the window. A key leaves the keys in flight only
    /// when its own operation completes, and an error empties them.
    pub fn update(&mut self, msg: PrefsControl) -> (acts: Vec<PrefsAction>)
        requires
            old(self).wf(),
        ensures
            final(self).wf(),
            leaves_only_on_completion(names(old(self).active_ops@), names(final(self).active_ops@), msg),
            msg matches PrefsControl::InstallLatestVersion(k) ==> ({
                &&& names(old(self).active_ops@).contains(k@) ==> acts@.len() == 0
                    && final(self).active_ops@ == old(self).active_ops@
                &&& !names(old(self).active_ops@).contains(k@) ==> names(final(self).active_ops@)
                    == names(old(self).active_ops@).push(k@)
                    && prefs_actions_view(acts@) == seq![PrefsActionView::BeginDownload(is_addon_key(k@)),
                        PrefsActionView::InstallVersionRequested(k@)]
            }),
            msg matches PrefsControl::RemoveVersion(k) ==> ({
                &&& names(old(self).active_ops@).contains(k@) ==> acts@.len() == 0
                    && final(self).active_ops@ == old(self).active_ops@
                &&& !names(old(self).active_ops@).contains(k@) ==> names(final(self).active_ops@)
                    == names(old(self).active_ops@).push(k@)
                    && prefs_actions_view(acts@) == seq![PrefsActionView::BeginRemoval(k@),
                        PrefsActionView::RemoveVersionRequested(k@)]
            }),
            msg matches PrefsControl::VersionDownloadComplete(k) ==> names(final(self).active_ops@)
                == drop_name(names(old(self).active_ops@), k@)
                && names(final(self).version_rows@) == names(old(self).version_rows@).push(k@)
                && prefs_actions_view(acts@) == seq![PrefsActionView::FinishDownload(is_addon_key(k@))]
                    + act_if(
                        if is_addon_key(k@) { old(self).has_addon_download_row } else { old(self).has_download_row },
                        PrefsActionView::RemoveDownloadRow(is_addon_key(k@)),
                    )
                    + act_if(old(self).placeholder, PrefsActionView::HidePlaceholder)
                    + seq![PrefsActionView::AddInstalledRow(k@, spec_status(k@, opt_chars(old(self).current_version), true),
                        names(old(self).versions_in_use@).contains(k@))],
            msg matches PrefsControl::VersionRemoveComplete(k) ==> names(final(self).active_ops@)
                == drop_name(names(old(self).active_ops@), k@)
                && names(final(self).version_rows@) == drop_name(names(old(self).version_rows@), k@)
                && prefs_actions_view(acts@) == seq![PrefsActionView::FinishRemoval(k@)]
                    + act_if(names(old(self).version_rows@).contains(k@), PrefsActionView::RemoveInstalledRow(k@))
                    + spec_after_removal_acts(opt_chars(old(self).latest_version), k@,
                        drop_name(names(old(self).version_rows@), k@), old(self).has_download_row,
                        old(self).has_addon_download_row, old(self).placeholder),
            msg is VersionOpError ==> final(self).active_ops@.len() == 0 && acts@.len() == old(self).version_rows@.len() + 2,
            msg matches PrefsControl::SetLatestVersion(v) ==> final(self).active_ops@ == old(self).active_ops@
                && (final(self).latest_version matches Some(l) && l@ == v@)
                && prefs_actions_view(acts@) == act_if(old(self).placeholder, PrefsActionView::HidePlaceholder)
                    + spec_latest_row_acts(names(old(self).version_rows@), v@,
                        opt_chars(old(self).current_version), old(self).has_download_row, false)
                    + spec_latest_row_acts(names(old(self).version_rows@), spec_version_dir_key(v@, true),
                        opt_chars(old(self).current_version), old(self).has_addon_download_row, true),
            msg matches PrefsControl::SetConfig(c) ==> final(self).config == c && acts@.len() == 0
                && final(self).same_page(old(self)),
            msg matches PrefsControl::MergeShadersChanged(b) ==> final(self).config.merge_shaders == b
                && final(self).config.update_interval_hours == old(self).config.update_interval_hours
                && final(self).config.shader_repos@ == old(self).config.shader_repos@
                && (old(self).config.merge_shaders == b ==> acts@.len() == 0 && final(self).config == old(self).config)
                && (old(self).config.merge_shaders != b ==> acts@.len() == 1
                    && prefs_action_view(acts@[0]) == PrefsActionView::ConfigChanged(config_view(final(self).config)))
                && final(self).same_page(old(self)),
            msg matches PrefsControl::UpdateIntervalChanged(h) ==> final(self).config.update_interval_hours == h
                && final(self).config.merge_shaders == old(self).config.merge_shaders
                && final(self).config.shader_repos@ == old(self).config.shader_repos@
                && (old(self).config.update_interval_hours == h ==> acts@.len() == 0 && final(self).config == old(self).config)
                && (old(self).config.update_interval_hours != h ==> acts@.len() == 1
                    && prefs_action_view(acts@[0]) == PrefsActionView::ConfigChanged(config_view(final(self).config)))
                && final(self).same_page(old(self)),
    {
        let ghost before = names(self.active_ops@);
        match msg {
            PrefsControl::SetConfig(c) => {
                self.set_config(c);
                Vec::new()
            },
            PrefsControl::MergeShadersChanged(b) => self.merge_shaders_changed(b),
            PrefsControl::UpdateIntervalChanged(h) => self.update_interval_changed(h),
            PrefsControl::SetLatestVersion(v) => self.set_latest_version(v),
            PrefsControl::InstallLatestVersion(k) => {
                let acts = self.install_latest_version(k);
                proof {
                    if !before.contains(k@) {
                        assert(prefs_actions_view(acts@) =~= seq![PrefsActionView::BeginDownload(is_addon_key(k@)),
                            PrefsActionView::InstallVersionRequested(k@)]);
                    }
                    assert forall|n: Seq<char>| #[trigger] before.contains(n) implies names(self.active_ops@).contains(n) by {
                        broadcast use vstd::seq_lib::lemma_seq_contains_after_push;
                        if !before.contains(k@) {
                            assert(names(self.active_ops@) == before.push(k@));
                        }
                    }
                }
                acts
            },
            PrefsControl::RemoveVersion(k) => {
                let acts = self.remove_version(k);
                proof {
                    if !before.contains(k@) {
                        assert(prefs_actions_view(acts@) =~= seq![PrefsActionView::BeginRemoval(k@),
                            PrefsActionView::RemoveVersionRequested(k@)]);
                    }
                    assert forall|n: Seq<char>| #[trigger] before.contains(n) implies names(self.active_ops@).contains(n) by {
                        broadcast use vstd::seq_lib::lemma_seq_contains_after_push;
                        if !before.contains(k@) {
                            assert(names(self.active_ops@) == before.push(k@));
                        }
                    }
                }
                acts
            },
            PrefsControl::VersionDownloadComplete(k) => {
                let ghost kv = k@;
                let acts = self.version_download_complete(k);
                proof {
                    assert forall|n: Seq<char>| #[trigger] before.contains(n) && !names(self.active_ops@).contains(n) implies n == kv by {
                        if n != kv {
                            lemma_drop_name_keeps_others(before, kv, n);
                        }
                    }
                }
                acts
            },
            PrefsControl::VersionRemoveComplete(k) => {
                let ghost kv = k@;
                let acts = self.version_remove_complete(k);
                proof {
                    assert forall|n: Seq<char>| #[trigger] before.contains(n) && !names(self.active_ops@).contains(n) implies n == kv by {
                        if n != kv {
                            lemma_drop_name_keeps_others(before, kv, n);
                        }
                    }
                }
                acts
            },
            PrefsControl::VersionOpError(_) => self.version_op_error(),
        }
    }
}

} // verus!
