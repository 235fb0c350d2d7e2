//! Known `ReShade` shader repositories from the community catalog.
use vstd::prelude::*;

use crate::reshade::config::{repo_view, ShaderRepo};
use crate::text::clone_opt;

verus! {

/// A known shader repository from the community catalog.
#[derive(Debug, Clone)]
pub struct CatalogEntry {
    /// Display name shown in the Shaders tab.
    pub name: String,
    /// Short description of the shaders included.
    pub description: String,
    /// Local directory name under `ReShade_shaders/`.
    pub local_name: String,
    /// Remote HTTPS URL.
    pub url: String,
    /// Optional branch; `None` clones the default branch.
    pub branch: Option<String>,
}

/// The repository a catalog entry stands for: its URL, local name and branch,
/// not enabled by default.
pub open spec fn entry_repo(e: CatalogEntry) -> (Seq<char>, Seq<char>, Option<Seq<char>>, bool) {
    (
        e.url@,
        e.local_name@,
        match e.branch {
            Some(b) => Some(b@),
            None => None,
        },
        false,
    )
}

impl CatalogEntry {
    /// Converts this catalog entry into a [`ShaderRepo`] suitable for syncing.
    pub fn to_shader_repo(&self) -> (r: ShaderRepo)
        ensures
            repo_view(r) == entry_repo(*self),
    {
        ShaderRepo {
            url: self.url.clone(),
            local_name: self.local_name.clone(),
            branch: clone_opt(&self.branch),
            enabled_by_default: false,
        }
    }
}

} // verus!
