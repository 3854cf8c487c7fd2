use logbuch_shell::cache::{cache_targets, removals, CacheDir, CacheTarget, Layout, Probe};
use logbuch_shell::platform::Capabilities;

fn with_cache() -> Capabilities {
    Capabilities { sidecar: true, webview_cache: true, load_race: false }
}

fn path(parts: &[&str]) -> Vec<String> {
    parts.iter().map(|p| p.to_string()).collect()
}

fn starts_with(whole: &[String], head: &[String]) -> bool {
    whole.len() >= head.len() && whole[..head.len()] == head[..]
}

/// Carries out one clear on a directory tree that is given as the list of
/// its paths, and returns what was removed.
fn clear(tree: &mut Vec<Vec<String>>, caps: &Capabilities) -> Vec<CacheTarget> {
    let probes: Vec<Probe> = cache_targets(caps)
        .into_iter()
        .map(|target| Probe { target, present: tree.contains(&target.components()) })
        .collect();
    let removed = removals(&probes);
    for target in &removed {
        let root = target.components();
        tree.retain(|p| !starts_with(p, &root));
    }
    removed
}

fn sample_tree() -> Vec<Vec<String>> {
    vec![
        path(&["Cache"]),
        path(&["Cache", "Cache_Data"]),
        path(&["Cache", "Cache_Data", "index"]),
        path(&["Code Cache"]),
        path(&["Code Cache", "js"]),
        path(&["IndexedDB"]),
        path(&["IndexedDB", "tauri_localhost_0.indexeddb.leveldb"]),
        path(&["Local Storage"]),
        path(&["Local Storage", "leveldb"]),
        path(&["Service Worker"]),
        path(&["Service Worker", "CacheStorage"]),
        path(&["Service Worker", "CacheStorage", "protomaps-tiles-precache"]),
        path(&["EBWebView"]),
        path(&["EBWebView", "Default"]),
        path(&["EBWebView", "Default", "Cache"]),
        path(&["EBWebView", "Default", "Cache", "data_0"]),
        path(&["EBWebView", "Default", "IndexedDB"]),
        path(&["EBWebView", "Default", "Service Worker", "CacheStorage"]),
        path(&["Cached"]),
        path(&["Code"]),
    ]
}

#[test]
fn targets_are_the_four_cache_directories_in_order() {
    let targets = cache_targets(&with_cache());
    assert_eq!(
        targets,
        vec![
            CacheTarget { layout: Layout::Direct, dir: CacheDir::Http },
            CacheTarget { layout: Layout::Nested, dir: CacheDir::Http },
            CacheTarget { layout: Layout::Direct, dir: CacheDir::Code },
            CacheTarget { layout: Layout::Nested, dir: CacheDir::Code },
        ]
    );
    let paths: Vec<Vec<String>> = targets.iter().map(|t| t.components()).collect();
    assert_eq!(
        paths,
        vec![
            path(&["Cache"]),
            path(&["EBWebView", "Default", "Cache"]),
            path(&["Code Cache"]),
            path(&["EBWebView", "Default", "Code Cache"]),
        ]
    );
}

#[test]
fn no_targets_where_the_platform_keeps_no_cache() {
    let caps = Capabilities { sidecar: true, webview_cache: false, load_race: true };
    assert_eq!(cache_targets(&caps), Vec::<CacheTarget>::new());
}

#[test]
fn cache_dir_names() {
    assert_eq!(CacheDir::Http.to_name(), "Cache");
    assert_eq!(CacheDir::Code.to_name(), "Code Cache");
}

#[test]
fn removals_keep_the_found_targets_in_order() {
    let targets = cache_targets(&with_cache());
    let probes = vec![
        Probe { target: targets[0], present: false },
        Probe { target: targets[1], present: true },
        Probe { target: targets[2], present: true },
        Probe { target: targets[3], present: false },
    ];
    assert_eq!(removals(&probes), vec![targets[1], targets[2]]);
}

#[test]
fn removals_of_nothing_found_are_empty() {
    let probes: Vec<Probe> = cache_targets(&with_cache())
        .into_iter()
        .map(|target| Probe { target, present: false })
        .collect();
    assert_eq!(removals(&probes), Vec::<CacheTarget>::new());
    assert_eq!(removals(&Vec::new()), Vec::<CacheTarget>::new());
}

#[test]
fn removals_of_everything_found_are_all_targets() {
    let targets = cache_targets(&with_cache());
    let probes: Vec<Probe> =
        targets.iter().map(|target| Probe { target: *target, present: true }).collect();
    assert_eq!(removals(&probes), targets);
}

#[test]
fn second_clear_removes_nothing() {
    let caps = with_cache();
    let mut tree = sample_tree();
    let first = clear(&mut tree, &caps);
    assert_eq!(first.len(), 3);
    let after_first = tree.clone();
    let second = clear(&mut tree, &caps);
    assert_eq!(second, Vec::<CacheTarget>::new());
    assert_eq!(tree, after_first);
}

#[test]
fn clear_leaves_storage_and_tiles_untouched() {
    let caps = with_cache();
    let mut tree = sample_tree();
    clear(&mut tree, &caps);
    assert_eq!(
        tree,
        vec![
            path(&["IndexedDB"]),
            path(&["IndexedDB", "tauri_localhost_0.indexeddb.leveldb"]),
            path(&["Local Storage"]),
            path(&["Local Storage", "leveldb"]),
            path(&["Service Worker"]),
            path(&["Service Worker", "CacheStorage"]),
            path(&["Service Worker", "CacheStorage", "protomaps-tiles-precache"]),
            path(&["EBWebView"]),
            path(&["EBWebView", "Default"]),
            path(&["EBWebView", "Default", "IndexedDB"]),
            path(&["EBWebView", "Default", "Service Worker", "CacheStorage"]),
            path(&["Cached"]),
            path(&["Code"]),
        ]
    );
}

#[test]
fn clear_without_cache_capability_changes_nothing() {
    let caps = Capabilities { sidecar: false, webview_cache: false, load_race: false };
    let mut tree = sample_tree();
    let removed = clear(&mut tree, &caps);
    assert_eq!(removed, Vec::<CacheTarget>::new());
    assert_eq!(tree, sample_tree());
}

#[test]
fn no_target_lies_in_another() {
    let paths: Vec<Vec<String>> =
        cache_targets(&with_cache()).iter().map(|t| t.components()).collect();
    for (i, a) in paths.iter().enumerate() {
        for (j, b) in paths.iter().enumerate() {
            if i != j {
                assert!(!starts_with(a, b));
            }
        }
    }
}
