//! What the shell does of its own accord: once when the process starts, and
//! once when it exits.

use crate::platform::Capabilities;
use crate::render::RENDER_CHECK_DELAY_MS;
use crate::sidecar::{kill_args, kill_order, kill_program, KillOrder};
use vstd::prelude::*;

verus! {

/// One piece of work of the startup hook.
#[derive(Clone, Copy, Debug, PartialEq, Eq, Structural)]
pub enum StartupStep {
    /// Clear the embedded browser's response caches.
    ClearCache,
    /// Evict stale workers and buckets from the page.
    EvictStale,
    /// Check after the delay, in milliseconds, that the page has rendered.
    ScheduleRenderCheck { delay_ms: u64 },
    /// Ask the update service for a newer version, without waiting for it.
    CheckForUpdates,
}

/// An event of the application's run loop, as far as the shell reacts to it.
#[derive(Clone, Copy, Debug, PartialEq, Eq, Structural)]
pub enum RunEvent {
    /// The application is exiting.
    Exit,
    /// Anything else.
    Other,
}

/// The work of the startup hook, in order. The caches are cleared first, so
/// that the page loads fresh, where the platform has them. What acts on the
/// page needs the main window: the eviction, and the render check where the
/// platform is known to race. The update check comes last and always.
pub open spec fn startup_steps(caps: Capabilities, has_window: bool) -> Seq<StartupStep> {
    let clear = if caps.webview_cache {
        seq![StartupStep::ClearCache]
    } else {
        Seq::empty()
    };
    let evict = if has_window {
        seq![StartupStep::EvictStale]
    } else {
        Seq::empty()
    };
    let check = if has_window && caps.load_race {
        seq![StartupStep::ScheduleRenderCheck { delay_ms: RENDER_CHECK_DELAY_MS }]
    } else {
        Seq::empty()
    };
    clear + evict + check + seq![StartupStep::CheckForUpdates]
}

/// Plans the startup hook for this platform. `has_window` says whether the
/// main window was found.
pub fn startup_plan(caps: &Capabilities, has_window: bool) -> (steps: Vec<StartupStep>)
    ensures
        steps@ == startup_steps(*caps, has_window),
{
    let mut steps: Vec<StartupStep> = Vec::new();
    if caps.webview_cache {
        steps.push(StartupStep::ClearCache);
    }
    if has_window {
        steps.push(StartupStep::EvictStale);
        if caps.load_race {
            steps.push(StartupStep::ScheduleRenderCheck { delay_ms: RENDER_CHECK_DELAY_MS });
        }
    }
    steps.push(StartupStep::CheckForUpdates);
    steps
}

/// Reacts to an event of the run loop. On exit the helper is ended, where
/// there is one, so that an installer can replace its file. No other event
/// asks for anything.
pub fn on_run_event(event: RunEvent, caps: &Capabilities) -> (order: Option<KillOrder>)
    ensures
        order is Some <==> event is Exit && caps.sidecar,
        order matches Some(o) ==> o.program@ == kill_program() && o.args.deep_view()
            == kill_args(),
{
    match event {
        RunEvent::Exit => kill_order(caps),
        RunEvent::Other => None,
    }
}

/// The startup hook asks for every piece of work at most once, and for an
/// update check every time.
pub proof fn law_startup_runs_each_step_once(caps: Capabilities, has_window: bool)
    ensures
        startup_steps(caps, has_window).no_duplicates(),
        startup_steps(caps, has_window).last() == StartupStep::CheckForUpdates,
        startup_steps(caps, has_window).contains(StartupStep::ClearCache) == caps.webview_cache,
        startup_steps(caps, has_window).contains(StartupStep::EvictStale) == has_window,
{
    let steps = startup_steps(caps, has_window);
    if caps.webview_cache {
        assert(steps[0] == StartupStep::ClearCache);
    }
    if has_window {
        let at: int = if caps.webview_cache {
            1
        } else {
            0
        };
        assert(steps[at] == StartupStep::EvictStale);
    }
}

} // verus!
