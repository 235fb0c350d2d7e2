//! Shared types used by background workers.
use vstd::prelude::*;

use crate::text::push_str;

verus! {

/// A typed progress event emitted by background workers.
#[derive(Debug, Clone)]
pub enum ProgressEvent {
    /// Downloading a `ReShade` version archive.
    Downloading {
        /// The version key being downloaded, e.g. `"6.3.0-Addon"`.
        version: String,
    },
    /// Installing `d3dcompiler_47.dll` into the app data directory.
    InstallingD3dcompiler,
    /// Installing `ReShade` DLLs into the game directory.
    Installing,
    /// Syncing a shader repository (clone or pull).
    SyncingRepo {
        /// The repository's local name.
        name: String,
    },
}

/// The text shown for a progress event.
pub open spec fn spec_progress_message(e: ProgressEvent) -> Seq<char> {
    match e {
        ProgressEvent::Downloading { version } => "Downloading ReShade "@ + version@ + "..."@,
        ProgressEvent::InstallingD3dcompiler => "Installing d3dcompiler_47.dll..."@,
        ProgressEvent::Installing => "Installing..."@,
        ProgressEvent::SyncingRepo { name } => "Syncing "@ + name@ + "..."@,
    }
}

impl ProgressEvent {
    /// The text shown for this event (what `Display` prints).
    pub fn message(&self) -> (r: String)
        ensures
            r@ == spec_progress_message(*self),
    {
        match self {
            ProgressEvent::Downloading { version } => {
                let mut r = "Downloading ReShade ".to_owned();
                push_str(&mut r, version.as_str());
                push_str(&mut r, "...");
                r
            },
            ProgressEvent::InstallingD3dcompiler => "Installing d3dcompiler_47.dll...".to_owned(),
            ProgressEvent::Installing => "Installing...".to_owned(),
            ProgressEvent::SyncingRepo { name } => {
                let mut r = "Syncing ".to_owned();
                push_str(&mut r, name.as_str());
                push_str(&mut r, "...");
                r
            },
        }
    }
}

} // verus!
