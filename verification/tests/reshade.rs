use gnome_iris::reshade::reshade::{
    dll_entries, download_url, first_tag, is_version_outdated, parse_version_key, sort_versions, split_version_key, version_dir,
    version_dir_key,
};

#[test]
fn build_download_url_standard() {
    assert_eq!(download_url("6.7.3", false), "https://reshade.me/downloads/ReShade_Setup_6.7.3.exe");
    // v-prefixed tag names (GitHub API) must be stripped
    assert_eq!(download_url("v6.7.3", false), "https://reshade.me/downloads/ReShade_Setup_6.7.3.exe");
}

#[test]
fn build_download_url_addon() {
    assert_eq!(download_url("6.7.3", true), "https://reshade.me/downloads/ReShade_Setup_6.7.3_Addon.exe");
    assert_eq!(download_url("v6.7.3", true), "https://reshade.me/downloads/ReShade_Setup_6.7.3_Addon.exe");
}

#[test]
fn list_versions_with_addon_sorts_correctly() {
    let found = vec!["6.8.0".to_owned(), "6.7.3-Addon".to_owned(), "6.7.3".to_owned()];
    let versions = sort_versions(&found);
    assert_eq!(versions, vec!["6.7.3", "6.7.3-Addon", "6.8.0"]);
}

#[test]
fn version_outdated_when_installed_is_older() {
    assert!(is_version_outdated("6.3.0", "v6.7.3"));
}

#[test]
fn version_not_outdated_when_equal() {
    assert!(!is_version_outdated("6.7.3", "v6.7.3"));
}

#[test]
fn version_not_outdated_when_newer() {
    assert!(!is_version_outdated("6.8.0", "v6.7.3"));
}

#[test]
fn version_not_outdated_on_parse_failure() {
    assert!(!is_version_outdated("unknown", "v6.7.3"));
    assert!(!is_version_outdated("6.7.3", "unknown"));
}

#[test]
fn version_outdated_strips_v_prefix() {
    // installed v-prefixed, latest bare
    assert!(is_version_outdated("v6.3.0", "6.7.3"));
    // both bare
    assert!(is_version_outdated("6.3.0", "6.7.3"));
    // both v-prefixed
    assert!(is_version_outdated("v6.3.0", "v6.7.3"));
}

#[test]
fn version_key_parses_parts_and_addon() {
    let k = parse_version_key("6.7.3-Addon");
    assert_eq!((k.major, k.minor, k.patch, k.addon), (6, 7, 3, true));
    let k = parse_version_key("6.x.12");
    assert_eq!((k.major, k.minor, k.patch, k.addon), (6, 0, 12, false));
    let k = parse_version_key("7");
    assert_eq!((k.major, k.minor, k.patch, k.addon), (7, 0, 0, false));
}

#[test]
fn sort_is_numeric_and_stable() {
    let found = vec!["6.10.0".to_owned(), "6.9.1".to_owned(), "junk".to_owned(), "6.9.1".to_owned()];
    assert_eq!(sort_versions(&found), vec!["junk", "6.9.1", "6.9.1", "6.10.0"]);
}

#[test]
fn version_dirs_and_keys() {
    assert_eq!(version_dir("/data", "6.7.3"), "/data/reshade/6.7.3");
    assert_eq!(version_dir_key("6.7.3", true), "6.7.3-Addon");
    assert_eq!(version_dir_key("6.7.3", false), "6.7.3");
    assert_eq!(split_version_key("6.7.3-Addon"), ("6.7.3".to_owned(), true));
    assert_eq!(split_version_key("6.7.3"), ("6.7.3".to_owned(), false));
}

#[test]
fn v_prefixed_keys_sort_by_their_numbers() {
    let items = vec!["v7.1.0".to_owned(), "v6.3.0-Addon".to_owned(), "v6.3.0".to_owned()];
    assert_eq!(sort_versions(&items), vec!["v6.3.0", "v6.3.0-Addon", "v7.1.0"]);
    let k = parse_version_key("v6.3.0-Addon");
    assert_eq!((k.major, k.minor, k.patch, k.addon), (6, 3, 0, true));
}

#[test]
fn extract_zip_extracts_dlls_only() {
    let mut buf = Vec::new();
    {
        let mut zip = zip::ZipWriter::new(std::io::Cursor::new(&mut buf));
        let opts = zip::write::SimpleFileOptions::default();
        zip.start_file("ReShade64.dll", opts).unwrap();
        std::io::Write::write_all(&mut zip, b"fake dll contents").unwrap();
        zip.start_file("readme.txt", opts).unwrap();
        std::io::Write::write_all(&mut zip, b"readme").unwrap();
        zip.finish().unwrap();
    }

    let entries = dll_entries(&buf).unwrap();
    assert_eq!(entries.len(), 1);
    assert_eq!(entries[0].0, "ReShade64.dll");
    assert_eq!(entries[0].1, b"fake dll contents".to_vec());
    assert!(entries.iter().all(|(n, _)| n != "readme.txt"));
}

#[test]
fn dll_entries_rejects_non_archive() {
    assert!(dll_entries(b"not a zip archive").is_none());
}

#[test]
fn first_tag_takes_the_newest() {
    assert_eq!(first_tag(vec!["v6.7.3".to_owned(), "v6.7.2".to_owned()]).as_deref(), Some("v6.7.3"));
    assert_eq!(first_tag(vec![]), None);
}
