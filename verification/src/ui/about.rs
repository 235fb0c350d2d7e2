//! What the About dialog says about the application.
use vstd::prelude::*;

verus! {

/// The About dialog's content.
#[derive(Debug, Clone)]
pub struct AboutDialog {
    /// Application name.
    pub application_name: &'static str,
    /// Application icon name.
    pub application_icon: &'static str,
    /// Developer line.
    pub developer_name: &'static str,
    /// Version of the running build.
    pub version: String,
    /// License (SPDX identifier).
    pub license: &'static str,
    /// One-line description.
    pub comments: &'static str,
    /// Credited projects: (title, URL), in order.
    pub links: Vec<(&'static str, &'static str)>,
}

impl AboutDialog {
    /// The dialog for the build with this version.
    pub fn new(version: String) -> (r: Self)
        ensures
            r.application_name@ == "Iris"@,
            r.application_icon@ == "iris"@,
            r.developer_name@ == "gnome-iris contributors"@,
            r.version == version,
            r.license@ == "GPL-2.0"@,
            r.comments@ == "ReShade manager for Wine/Proton games on Linux"@,
            r.links@.len() == 3,
            r.links@[0].0@ == "reshade-steam-proton"@ && r.links@[0].1@ == "https://github.com/kevinlekiller/reshade-steam-proton"@,
            r.links@[1].0@ == "ReShade"@ && r.links@[1].1@ == "https://reshade.me/"@,
            r.links@[2].0@ == "ratic (codebase)"@ && r.links@[2].1@ == "https://gitlab.gnome.org/ratcornu/ratic"@,
    {
        let links = vec![
            ("reshade-steam-proton", "https://github.com/kevinlekiller/reshade-steam-proton"),
            ("ReShade", "https://reshade.me/"),
            ("ratic (codebase)", "https://gitlab.gnome.org/ratcornu/ratic"),
        ];
        AboutDialog {
            application_name: "Iris",
            application_icon: "iris",
            developer_name: "gnome-iris contributors",
            version,
            license: "GPL-2.0",
            comments: "ReShade manager for Wine/Proton games on Linux",
            links,
        }
    }
}

} // verus!
