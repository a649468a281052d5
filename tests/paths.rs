use roblox_studio_utils::{RobloxStudioError, RobloxStudioPaths, VersionEntry};

fn dir(path: &str, has_exe: bool) -> VersionEntry {
    VersionEntry::Dir { path: path.to_string(), has_exe }
}

#[test]
fn bundle_paths() {
    let p = RobloxStudioPaths::from_bundle_in(Some("/Users/alice/Documents".to_string())).unwrap();
    assert_eq!(p.exe(), "/Applications/RobloxStudio.app/Contents/MacOS/RobloxStudio");
    assert_eq!(p.content(), "/Applications/RobloxStudio.app/Contents/Resources/content");
    assert_eq!(
        p.built_in_plugins(),
        "/Applications/RobloxStudio.app/Contents/Resources/BuiltInPlugins"
    );
    assert_eq!(p.user_plugins(), "/Users/alice/Documents/Roblox/Plugins");
}

#[test]
fn bundle_needs_documents() {
    match RobloxStudioPaths::from_bundle_in(None) {
        Err(RobloxStudioError::UserDocumentsDirMissing) => {}
        other => panic!("unexpected: {:?}", other),
    }
}

#[test]
fn install_root_is_parent_of_content() {
    let r = RobloxStudioPaths::install_root(&Ok("/opt/roblox/content".to_string())).unwrap();
    assert_eq!(r, "/opt/roblox");
    match RobloxStudioPaths::install_root(&Ok("/".to_string())) {
        Err(RobloxStudioError::Io(_)) => {}
        other => panic!("unexpected: {:?}", other),
    }
    match RobloxStudioPaths::install_root(&Ok(String::new())) {
        Err(RobloxStudioError::Io(_)) => {}
        other => panic!("unexpected: {:?}", other),
    }
    let r = RobloxStudioPaths::install_root(&Ok("content".to_string())).unwrap();
    assert_eq!(r, "");
    let r = RobloxStudioPaths::install_root(&Ok("/content".to_string())).unwrap();
    assert_eq!(r, "/");
    let r = RobloxStudioPaths::install_root(&Ok("a//b".to_string())).unwrap();
    assert_eq!(r, "a");
    let r = RobloxStudioPaths::install_root(&Ok("./content".to_string())).unwrap();
    assert_eq!(r, ".");
    let r = RobloxStudioPaths::install_root(&Ok("/opt/roblox//content".to_string())).unwrap();
    assert_eq!(r, "/opt/roblox");
    match RobloxStudioPaths::install_root(&Ok("///".to_string())) {
        Err(RobloxStudioError::Io(_)) => {}
        other => panic!("unexpected: {:?}", other),
    }
    match RobloxStudioPaths::install_root(&Err("key not found".to_string())) {
        Err(RobloxStudioError::Io(d)) => assert_eq!(d, "key not found"),
        other => panic!("unexpected: {:?}", other),
    }
}

#[test]
fn probe_paths() {
    assert_eq!(RobloxStudioPaths::exe_in("/opt/roblox"), "/opt/roblox/RobloxStudioBeta.exe");
    assert_eq!(RobloxStudioPaths::versions_dir("/opt/roblox"), "/opt/roblox/Versions");
}

#[test]
fn direct_layout_wins() {
    let versions = vec![dir("/opt/roblox/Versions/v1", true)];
    let p = RobloxStudioPaths::find_paths_in(
        "/opt/roblox",
        "/opt/roblox/content",
        Some("/home/alice/.local/share".to_string()),
        true,
        Some(versions),
    )
    .unwrap();
    assert_eq!(p.exe(), "/opt/roblox/RobloxStudioBeta.exe");
    assert_eq!(p.content(), "/opt/roblox/content");
    assert_eq!(p.built_in_plugins(), "/opt/roblox/BuiltInPlugins");
    assert_eq!(p.user_plugins(), "/home/alice/.local/share/Roblox/Plugins");
}

#[test]
fn versioned_layout_under_version_dir() {
    let versions = vec![
        VersionEntry::Other,
        dir("/opt/roblox/Versions/v0", false),
        dir("/opt/roblox/Versions/v1", true),
        dir("/opt/roblox/Versions/v2", true),
    ];
    let p = RobloxStudioPaths::find_paths_in(
        "/opt/roblox",
        "/opt/roblox/content",
        Some("/data".to_string()),
        false,
        Some(versions),
    )
    .unwrap();
    assert_eq!(p.exe(), "/opt/roblox/Versions/v1/RobloxStudioBeta.exe");
    assert_eq!(p.content(), "/opt/roblox/Versions/v1/content");
    assert_eq!(p.built_in_plugins(), "/opt/roblox/Versions/v1/BuiltInPlugins");
    assert_eq!(p.user_plugins(), "/data/Roblox/Plugins");
}

#[test]
fn nothing_found() {
    let cases = vec![
        None,
        Some(vec![]),
        Some(vec![dir("/r/Versions/v1", false), VersionEntry::Other]),
        Some(vec![VersionEntry::Unreadable, dir("/r/Versions/v1", true)]),
    ];
    for versions in cases {
        match RobloxStudioPaths::find_paths_in(
            "/r",
            "/r/content",
            Some("/data".to_string()),
            false,
            versions,
        ) {
            Err(RobloxStudioError::InstallationNotFound) => {}
            other => panic!("unexpected: {:?}", other),
        }
    }
}

#[test]
fn local_data_needed() {
    match RobloxStudioPaths::find_paths_in("/r", "/r/content", None, true, None) {
        Err(RobloxStudioError::LocalDataDirMissing) => {}
        other => panic!("unexpected: {:?}", other),
    }
}
