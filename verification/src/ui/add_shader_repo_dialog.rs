//! The dialog that adds a custom shader repository: its fields, the duplicate
//! check on the URL, and the repository it confirms.
use vstd::prelude::*;

use crate::reshade::config::{repo_view, ShaderRepo};
use crate::reshade::reshade::names;
use crate::text::{str_eq, trim, trim_string};

verus! {

/// `url`, trimmed, equals one of `existing`, each trimmed.
pub open spec fn spec_is_duplicate_url(url: Seq<char>, existing: Seq<Seq<char>>) -> bool {
    exists|i: int| 0 <= i < existing.len() && trim(#[trigger] existing[i]) == trim(url)
}

/// Returns `true` if `url` (trimmed) already exists in `existing` (each also trimmed).
pub fn is_duplicate_url(url: &str, existing: &[String]) -> (r: bool)
    ensures
        r == spec_is_duplicate_url(url@, existing@.map_values(|u: String| u@)),
{
    let trimmed = trim_string(url);
    let ghost ex = existing@.map_values(|u: String| u@);
    let mut i: usize = 0;
    while i < existing.len()
        invariant
            i <= existing@.len(),
            ex == existing@.map_values(|u: String| u@),
            trimmed@ == trim(url@),
            forall|j: int| 0 <= j < i ==> trim(#[trigger] ex[j]) != trim(url@),
        decreases existing.len() - i,
    {
        let t = trim_string(existing[i].as_str());
        if str_eq(t.as_str(), trimmed.as_str()) {
            assert(trim(ex[i as int]) == trim(url@));
            return true;
        }
        i = i + 1;
    }
    false
}

/// The dialog, apart from its widgets.
#[derive(Debug)]
pub struct AddShaderRepoModel {
    /// The name field.
    pub name: String,
    /// The URL field.
    pub url: String,
    /// The branch or tag field.
    pub git_ref: String,
    /// URLs already in the configuration.
    pub existing_urls: Vec<String>,
    /// The URL is already configured.
    pub duplicate: bool,
}

/// The repository a confirm builds: trimmed URL and name, the trimmed branch
/// unless it is empty, not enabled by default.
pub open spec fn spec_confirmed_repo(name: Seq<char>, url: Seq<char>, git_ref: Seq<char>) -> (
    Seq<char>,
    Seq<char>,
    Option<Seq<char>>,
    bool,
) {
    (trim(url), trim(name), if trim(git_ref).len() == 0 {
        None
    } else {
        Some(trim(git_ref))
    }, false)
}

impl AddShaderRepoModel {
    /// An empty dialog.
    pub fn new() -> (r: Self)
        ensures
            r.name@.len() == 0 && r.url@.len() == 0 && r.git_ref@.len() == 0,
            r.existing_urls@.len() == 0,
            !r.duplicate,
    {
        AddShaderRepoModel {
            name: String::new(),
            url: String::new(),
            git_ref: String::new(),
            existing_urls: Vec::new(),
            duplicate: false,
        }
    }

    fn refresh_duplicate(&mut self)
        ensures
            final(self).duplicate == spec_is_duplicate_url(old(self).url@, names(old(self).existing_urls@)),
            final(self).name == old(self).name,
            final(self).url == old(self).url,
            final(self).git_ref == old(self).git_ref,
            final(self).existing_urls == old(self).existing_urls,
    {
        self.duplicate = is_duplicate_url(self.url.as_str(), self.existing_urls.as_slice());
    }

    /// The name field changed.
    pub fn set_name(&mut self, v: String)
        ensures
            final(self).name == v,
            final(self).url == old(self).url,
            final(self).git_ref == old(self).git_ref,
            final(self).existing_urls == old(self).existing_urls,
            final(self).duplicate == old(self).duplicate,
    {
        self.name = v;
    }

    /// The URL field changed: the duplicate check runs again.
    pub fn set_url(&mut self, v: String)
        ensures
            final(self).url == v,
            final(self).duplicate == spec_is_duplicate_url(v@, names(old(self).existing_urls@)),
            final(self).name == old(self).name,
            final(self).git_ref == old(self).git_ref,
            final(self).existing_urls == old(self).existing_urls,
    {
        self.url = v;
        self.refresh_duplicate();
    }

    /// The branch field changed.
    pub fn set_ref(&mut self, v: String)
        ensures
            final(self).git_ref == v,
            final(self).name == old(self).name,
            final(self).url == old(self).url,
            final(self).existing_urls == old(self).existing_urls,
            final(self).duplicate == old(self).duplicate,
    {
        self.git_ref = v;
    }

    /// The configured URLs changed: the duplicate check runs again.
    pub fn update_existing_urls(&mut self, urls: Vec<String>)
        ensures
            final(self).existing_urls == urls,
            final(self).duplicate == spec_is_duplicate_url(old(self).url@, names(urls@)),
            final(self).name == old(self).name,
            final(self).url == old(self).url,
            final(self).git_ref == old(self).git_ref,
    {
        self.existing_urls = urls;
        self.refresh_duplicate();
    }

    /// The confirm button is enabled: name and URL are filled and the URL is new.
    pub fn confirm_enabled(&self) -> (r: bool)
        ensures
            r == (self.name@.len() > 0 && self.url@.len() > 0 && !self.duplicate),
    {
        !self.name.as_str().is_empty() && !self.url.as_str().is_empty() && !self.duplicate
    }

    /// The user confirmed: with a name and a URL (trimmed) and no duplicate,
    /// the repository is built and the fields clear; otherwise nothing happens.
    pub fn confirm(&mut self) -> (r: Option<ShaderRepo>)
        ensures
            (trim(old(self).name@).len() == 0 || trim(old(self).url@).len() == 0 || old(self).duplicate) ==> r is None
                && final(self).name == old(self).name && final(self).url == old(self).url
                && final(self).git_ref == old(self).git_ref && final(self).duplicate == old(self).duplicate,
            !(trim(old(self).name@).len() == 0 || trim(old(self).url@).len() == 0 || old(self).duplicate) ==> (r matches Some(repo)
                && repo_view(repo) == spec_confirmed_repo(old(self).name@, old(self).url@, old(self).git_ref@))
                && final(self).name@.len() == 0 && final(self).url@.len() == 0 && final(self).git_ref@.len() == 0
                && !final(self).duplicate,
            final(self).existing_urls == old(self).existing_urls,
    {
        let name = trim_string(self.name.as_str());
        let url = trim_string(self.url.as_str());
        if name.as_str().is_empty() || url.as_str().is_empty() || self.duplicate {
            return None;
        }
        let r = trim_string(self.git_ref.as_str());
        let branch = if r.as_str().is_empty() {
            None
        } else {
            Some(r)
        };
        let repo = ShaderRepo { url, local_name: name, branch, enabled_by_default: false };
        self.name = String::new();
        self.url = String::new();
        self.git_ref = String::new();
        self.duplicate = false;
        Some(repo)
    }
}

} // verus!
