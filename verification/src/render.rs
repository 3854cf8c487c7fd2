//! The one check, a moment after the window is created, that the page has
//! rendered.
//!
//! Where window creation can outrun the handler that serves the page, the
//! first load may come up blank. The shell looks once, after a fixed delay,
//! whether the page's root element is there and has content, and reloads the
//! page if not. It does not look again: a reload that fails too is not
//! noticed here.

use vstd::prelude::*;

verus! {

/// How long after window creation the check runs, in milliseconds.
pub const RENDER_CHECK_DELAY_MS: u64 = 1000;

/// What the check saw in the page.
#[derive(Clone, Copy, Debug, PartialEq, Eq, Structural)]
pub struct Rendering {
    /// The page's root element exists.
    pub root_present: bool,
    /// The root element has rendered content.
    pub has_content: bool,
}

/// The check itself, which fires once.
#[derive(Debug)]
pub struct RenderCheck {
    fired: bool,
}

/// Whether the page has rendered: its root element is there and not empty.
pub open spec fn rendered(seen: Rendering) -> bool {
    seen.root_present && seen.has_content
}

/// Whether a firing of the check reloads the page: it is the first firing,
/// and the page has not rendered.
pub open spec fn retry_due(fired: bool, seen: Rendering) -> bool {
    !fired && !rendered(seen)
}

/// How many reloads a run of firings of one check triggers.
pub open spec fn retries(fired: bool, seen: Seq<Rendering>) -> nat
    decreases seen.len(),
{
    if seen.len() == 0 {
        0
    } else {
        let now: nat = if retry_due(fired, seen[0]) {
            1
        } else {
            0
        };
        now + retries(true, seen.drop_first())
    }
}

impl RenderCheck {
    /// Whether the check has fired.
    pub closed spec fn fired(&self) -> bool {
        self.fired
    }

    /// A check that has not fired yet.
    pub fn new() -> (check: RenderCheck)
        ensures
            !check.fired(),
    {
        RenderCheck { fired: false }
    }

    /// Whether the check has fired.
    pub fn has_fired(&self) -> (flag: bool)
        ensures
            flag == self.fired(),
    {
        self.fired
    }

    /// Fires the check with what was seen in the page, and says whether to
    /// reload. Only the first firing can ask for a reload, and it does so
    /// exactly if the page has not rendered.
    pub fn fire(&mut self, seen: Rendering) -> (reload: bool)
        ensures
            reload == retry_due(old(self).fired(), seen),
            final(self).fired(),
    {
        let reload = !self.fired && !(seen.root_present && seen.has_content);
        self.fired = true;
        reload
    }
}

/// However often one check is fired, and whatever it sees, it reloads the
/// page at most once, and only at its first firing.
pub proof fn law_at_most_one_retry(fired: bool, seen: Seq<Rendering>)
    ensures
        retries(fired, seen) <= 1,
        fired ==> retries(fired, seen) == 0,
        retries(fired, seen) == 1 <==> seen.len() > 0 && retry_due(fired, seen[0]),
    decreases seen.len(),
{
    if seen.len() > 0 {
        law_at_most_one_retry(true, seen.drop_first());
    }
}

} // verus!
