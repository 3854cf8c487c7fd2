//! What the host platform offers the shell.

use vstd::prelude::*;

verus! {

/// Platform facts, resolved once when the process starts. Every decision of
/// the shell that differs between platforms reads one of these flags, so the
/// same logic runs everywhere.
#[derive(Clone, Copy, Debug, PartialEq, Eq, Structural)]
pub struct Capabilities {
    /// The helper process ships with the application and may be running.
    pub sidecar: bool,
    /// The embedded browser keeps its response caches below the local data
    /// directory, in one of the known layouts.
    pub webview_cache: bool,
    /// Window creation can outrun the registration of the handler that
    /// serves the page, leaving the first load blank.
    pub load_race: bool,
}

} // verus!
