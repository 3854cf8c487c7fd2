use logbuch_shell::eviction::{tiles_bucket_name, Eviction, Session};

fn names(list: &[&str]) -> Vec<String> {
    list.iter().map(|n| n.to_string()).collect()
}

#[test]
fn tiles_bucket_is_named() {
    assert_eq!(tiles_bucket_name(), "protomaps-tiles-precache");
}

#[test]
fn new_session_has_not_reloaded() {
    assert!(!Session::new().has_reloaded());
}

#[test]
fn nothing_stale_means_no_deletion_and_no_reload() {
    let mut session = Session::new();
    let plan = session.evict(&names(&[]), &names(&["protomaps-tiles-precache"]));
    assert_eq!(plan, Eviction { unregister: vec![], delete: vec![], reload: false });
    assert!(!session.has_reloaded());
}

#[test]
fn empty_page_means_no_deletion_and_no_reload() {
    let mut session = Session::new();
    let plan = session.evict(&names(&[]), &names(&[]));
    assert_eq!(plan, Eviction { unregister: vec![], delete: vec![], reload: false });
    assert!(!session.has_reloaded());
}

#[test]
fn one_stale_worker_is_unregistered_and_reloads_once() {
    let mut session = Session::new();
    let first = session.evict(&names(&["https://tauri.localhost/"]), &names(&[]));
    assert_eq!(
        first,
        Eviction { unregister: names(&["https://tauri.localhost/"]), delete: vec![], reload: true }
    );
    assert!(session.has_reloaded());

    let second = session.evict(
        &names(&["https://tauri.localhost/"]),
        &names(&["workbox-precache-v2", "protomaps-tiles-precache"]),
    );
    assert_eq!(
        second,
        Eviction {
            unregister: names(&["https://tauri.localhost/"]),
            delete: names(&["workbox-precache-v2"]),
            reload: false,
        }
    );
    assert!(session.has_reloaded());
}

#[test]
fn stale_buckets_are_deleted_in_order_and_tiles_spared() {
    let mut session = Session::new();
    let plan = session.evict(
        &names(&[]),
        &names(&[
            "workbox-runtime",
            "protomaps-tiles-precache",
            "workbox-precache-v2",
            "Protomaps-tiles-precache",
            "protomaps-tiles-precache ",
            "workbox-runtime",
        ]),
    );
    assert_eq!(
        plan.delete,
        names(&[
            "workbox-runtime",
            "workbox-precache-v2",
            "Protomaps-tiles-precache",
            "protomaps-tiles-precache ",
            "workbox-runtime",
        ])
    );
    assert_eq!(plan.unregister, Vec::<String>::new());
    assert!(plan.reload);
    assert!(session.has_reloaded());
}

#[test]
fn every_worker_is_unregistered_in_order() {
    let mut session = Session::new();
    let workers = names(&["https://a/", "https://b/app/", "https://a/"]);
    let plan = session.evict(&workers, &names(&["protomaps-tiles-precache"]));
    assert_eq!(plan.unregister, workers);
    assert_eq!(plan.delete, Vec::<String>::new());
    assert!(plan.reload);
}

#[test]
fn second_eviction_of_what_the_first_left_does_nothing() {
    let mut session = Session::new();
    let buckets = names(&["old", "protomaps-tiles-precache", "older"]);
    let first = session.evict(&names(&["https://a/"]), &buckets);
    assert!(first.reload);
    let left: Vec<String> =
        buckets.iter().filter(|b| !first.delete.contains(b)).cloned().collect();
    assert_eq!(left, names(&["protomaps-tiles-precache"]));

    let mut fresh = Session::new();
    let again = fresh.evict(&names(&[]), &left);
    assert_eq!(again, Eviction { unregister: vec![], delete: vec![], reload: false });
    assert!(!fresh.has_reloaded());
}

#[test]
fn at_most_one_reload_over_many_evictions() {
    let mut session = Session::new();
    let mut reloads: u32 = 0;
    let pages: Vec<(Vec<String>, Vec<String>)> = vec![
        (names(&[]), names(&["protomaps-tiles-precache"])),
        (names(&[]), names(&["stale"])),
        (names(&["https://a/"]), names(&[])),
        (names(&[]), names(&[])),
        (names(&["https://a/"]), names(&["stale", "staler"])),
    ];
    for (workers, buckets) in &pages {
        if session.evict(workers, buckets).reload {
            reloads += 1;
        }
    }
    assert_eq!(reloads, 1);
    assert!(session.has_reloaded());
}
