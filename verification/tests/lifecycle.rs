use logbuch_shell::lifecycle::{on_run_event, startup_plan, RunEvent, StartupStep};
use logbuch_shell::platform::Capabilities;
use logbuch_shell::sidecar::{kill_order, KillOrder};

fn caps(sidecar: bool, webview_cache: bool, load_race: bool) -> Capabilities {
    Capabilities { sidecar, webview_cache, load_race }
}

fn taskkill() -> KillOrder {
    KillOrder {
        program: "taskkill".to_string(),
        args: vec!["/F".to_string(), "/IM".to_string(), "nmea-bridge.exe".to_string()],
    }
}

#[test]
fn kill_order_where_the_helper_exists() {
    assert_eq!(kill_order(&caps(true, false, false)), Some(taskkill()));
    assert_eq!(kill_order(&caps(true, true, true)), Some(taskkill()));
}

#[test]
fn no_kill_order_where_there_is_no_helper() {
    assert_eq!(kill_order(&caps(false, false, false)), None);
    assert_eq!(kill_order(&caps(false, true, true)), None);
}

#[test]
fn exit_ends_the_helper() {
    assert_eq!(on_run_event(RunEvent::Exit, &caps(true, true, false)), Some(taskkill()));
}

#[test]
fn exit_without_helper_does_nothing() {
    assert_eq!(on_run_event(RunEvent::Exit, &caps(false, true, true)), None);
}

#[test]
fn other_events_do_nothing() {
    assert_eq!(on_run_event(RunEvent::Other, &caps(true, true, true)), None);
    assert_eq!(on_run_event(RunEvent::Other, &caps(false, false, false)), None);
}

#[test]
fn startup_with_everything() {
    assert_eq!(
        startup_plan(&caps(true, true, true), true),
        vec![
            StartupStep::ClearCache,
            StartupStep::EvictStale,
            StartupStep::ScheduleRenderCheck { delay_ms: 1000 },
            StartupStep::CheckForUpdates,
        ]
    );
}

#[test]
fn startup_with_cache_and_no_race() {
    assert_eq!(
        startup_plan(&caps(true, true, false), true),
        vec![StartupStep::ClearCache, StartupStep::EvictStale, StartupStep::CheckForUpdates]
    );
}

#[test]
fn startup_without_window() {
    assert_eq!(
        startup_plan(&caps(true, true, true), false),
        vec![StartupStep::ClearCache, StartupStep::CheckForUpdates]
    );
    assert_eq!(startup_plan(&caps(false, false, true), false), vec![StartupStep::CheckForUpdates]);
}

#[test]
fn startup_with_nothing_special() {
    assert_eq!(
        startup_plan(&caps(false, false, false), true),
        vec![StartupStep::EvictStale, StartupStep::CheckForUpdates]
    );
    assert_eq!(
        startup_plan(&caps(false, false, true), true),
        vec![
            StartupStep::EvictStale,
            StartupStep::ScheduleRenderCheck { delay_ms: 1000 },
            StartupStep::CheckForUpdates,
        ]
    );
}
