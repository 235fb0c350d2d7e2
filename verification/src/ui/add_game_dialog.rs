//! The dialog that adds a game by hand: its fields, the directory a chosen
//! file stands for, and the check that the game is not in the library yet.
use vstd::prelude::*;

use crate::reshade::game::ExeArch;
use crate::reshade::paths::{path_eq, path_key, path_parent, std_path_parent};
use crate::text::{push_str, trim, trim_string};

verus! {

/// `p` is, as a path, one of `existing`.
pub open spec fn spec_path_in(p: Seq<char>, existing: Seq<String>) -> bool {
    exists|i: int| 0 <= i < existing.len() && path_key(#[trigger] existing[i]@) == path_key(p)
}

/// Whether `p` is, as a path, one of `existing`.
pub fn path_in(p: &str, existing: &Vec<String>) -> (r: bool)
    ensures
        r == spec_path_in(p@, existing@),
{
    let mut i: usize = 0;
    while i < existing.len()
        invariant
            i <= existing@.len(),
            forall|j: int| 0 <= j < i ==> path_key(#[trigger] existing@[j]@) != path_key(p@),
        decreases existing.len() - i,
    {
        if path_eq(existing[i].as_str(), p) {
            return true;
        }
        i = i + 1;
    }
    false
}

/// The directory a chosen path stands for: the folder of a chosen file (the
/// file itself if it has none), or the chosen folder.
pub open spec fn spec_chosen_dir(path: Seq<char>, is_file: bool) -> Seq<char> {
    if is_file {
        match std_path_parent(path) {
            Some(d) => d,
            None => path,
        }
    } else {
        path
    }
}

/// The dialog, apart from its widgets.
#[derive(Debug)]
pub struct AddGameModel {
    /// The name field.
    pub name: String,
    /// The chosen game directory.
    pub path: Option<String>,
    /// The chosen architecture.
    pub arch: ExeArch,
    /// Directories of the games already in the library.
    pub existing_paths: Vec<String>,
    /// The chosen directory is already in the library.
    pub duplicate: bool,
}

/// The duplicate flag for a chosen directory.
pub open spec fn spec_duplicate(path: Option<String>, existing: Seq<String>) -> bool {
    match path {
        Some(p) => spec_path_in(p@, existing),
        None => false,
    }
}

impl AddGameModel {
    /// An empty dialog over the library's directories.
    pub fn new(existing_paths: Vec<String>) -> (r: Self)
        ensures
            r.name@.len() == 0,
            r.path is None,
            r.arch == ExeArch::X86_64,
            r.existing_paths == existing_paths,
            !r.duplicate,
    {
        AddGameModel { name: String::new(), path: None, arch: ExeArch::X86_64, existing_paths, duplicate: false }
    }

    /// Opening clears the fields: no name, no directory, 64-bit.
    pub fn open(&mut self)
        ensures
            final(self).name@.len() == 0,
            final(self).path is None,
            final(self).arch == ExeArch::X86_64,
            !final(self).duplicate,
            final(self).existing_paths == old(self).existing_paths,
    {
        self.name = String::new();
        self.path = None;
        self.arch = ExeArch::X86_64;
        self.duplicate = false;
    }

    /// The name field changed.
    pub fn set_name(&mut self, v: String)
        ensures
            final(self).name == v,
            final(self).path == old(self).path,
            final(self).arch == old(self).arch,
            final(self).existing_paths == old(self).existing_paths,
            final(self).duplicate == old(self).duplicate,
    {
        self.name = v;
    }

    /// An architecture was chosen.
    pub fn set_arch(&mut self, arch: ExeArch)
        ensures
            final(self).arch == arch,
            final(self).name == old(self).name,
            final(self).path == old(self).path,
            final(self).existing_paths == old(self).existing_paths,
            final(self).duplicate == old(self).duplicate,
    {
        self.arch = arch;
    }

    fn refresh_duplicate(&mut self)
        ensures
            final(self).duplicate == spec_duplicate(old(self).path, old(self).existing_paths@),
            final(self).name == old(self).name,
            final(self).path == old(self).path,
            final(self).arch == old(self).arch,
            final(self).existing_paths == old(self).existing_paths,
    {
        let dup = match &self.path {
            Some(p) => path_in(p.as_str(), &self.existing_paths),
            None => false,
        };
        self.duplicate = dup;
    }

    /// The library's directories changed: the duplicate check runs again.
    pub fn update_existing_paths(&mut self, paths: Vec<String>)
        ensures
            final(self).existing_paths == paths,
            final(self).duplicate == spec_duplicate(old(self).path, paths@),
            final(self).name == old(self).name,
            final(self).path == old(self).path,
            final(self).arch == old(self).arch,
    {
        self.existing_paths = paths;
        self.refresh_duplicate();
    }

    /// A file or folder was chosen. For a file the directory is its folder
    /// and the architecture is the one detected in its PE header (64-bit when
    /// none was); a folder is used as it is. Returns the line shown under the
    /// directory row.
    pub fn file_selected(&mut self, path: String, is_file: bool, detected: Option<ExeArch>) -> (subtitle: String)
        ensures
            final(self).path matches Some(d) && d@ == spec_chosen_dir(path@, is_file),
            is_file ==> final(self).arch == match detected {
                Some(a) => a,
                None => ExeArch::X86_64,
            },
            !is_file ==> final(self).arch == old(self).arch,
            final(self).duplicate == spec_path_in(spec_chosen_dir(path@, is_file), old(self).existing_paths@),
            final(self).duplicate ==> subtitle@ == spec_chosen_dir(path@, is_file) + " \u{2014} already in library"@,
            !final(self).duplicate ==> subtitle@ == spec_chosen_dir(path@, is_file),
            final(self).name == old(self).name,
            final(self).existing_paths == old(self).existing_paths,
    {
        let dir = if is_file {
            self.arch = match detected {
                Some(a) => a,
                None => ExeArch::X86_64,
            };
            match path_parent(path.as_str()) {
                Some(d) => d,
                None => path,
            }
        } else {
            path
        };
        let mut subtitle = dir.clone();
        self.path = Some(dir);
        self.refresh_duplicate();
        if self.duplicate {
            push_str(&mut subtitle, " \u{2014} already in library");
        }
        subtitle
    }

    /// The Add button is enabled: a name (not only spaces), a directory, no duplicate.
    pub fn confirm_enabled(&self) -> (r: bool)
        ensures
            r == (trim(self.name@).len() > 0 && self.path is Some && !self.duplicate),
    {
        let n = trim_string(self.name.as_str());
        !n.as_str().is_empty() && self.path.is_some() && !self.duplicate
    }

    /// The user confirmed: with a trimmed name, a directory and no duplicate
    /// the game is added and the fields clear; otherwise nothing happens.
    pub fn confirm(&mut self) -> (r: Option<(String, String, ExeArch)>)
        ensures
            ({
                let ok = trim(old(self).name@).len() > 0 && old(self).path is Some && !old(self).duplicate;
                &&& ok ==> (r matches Some((n, p, a)) && n@ == trim(old(self).name@)
                    && old(self).path == Some(p) && a == old(self).arch)
                    && final(self).name@.len() == 0 && final(self).path is None
                    && final(self).arch == ExeArch::X86_64 && !final(self).duplicate
                &&& !ok ==> r is None && final(self).name == old(self).name && final(self).path == old(self).path
                    && final(self).arch == old(self).arch && final(self).duplicate == old(self).duplicate
            }),
            final(self).existing_paths == old(self).existing_paths,
    {
        let name = trim_string(self.name.as_str());
        if self.path.is_none() || name.as_str().is_empty() || self.duplicate {
            return None;
        }
        let path = self.path.take();
        match path {
            Some(p) => {
                let arch = self.arch;
                self.name = String::new();
                self.arch = ExeArch::X86_64;
                self.duplicate = false;
                Some((name, p, arch))
            },
            None => None,
        }
    }
}

} // verus!
