//! The commands that the page can invoke, and what each one asks the shell
//! to do.
//!
//! A command is a plain request. This module turns it into the one effect
//! that the shell has to carry out; the answer to the page is then settled
//! from how the effect went (see `outcome`). Commands are independent of each
//! other and keep nothing between calls.

use crate::cache::{cache_targets, targets, CacheTarget};
use crate::platform::Capabilities;
use crate::sidecar::{kill_args, kill_order, kill_program, KillOrder};
use vstd::prelude::*;

verus! {

/// A request from the page.
#[derive(Clone, Debug, PartialEq, Eq)]
pub enum Command {
    /// Write the bytes to the file at the path, replacing what is there.
    SaveFile { path: String, data: Vec<u8> },
    /// End the helper process.
    KillBridge,
    /// Clear the embedded browser's response caches.
    ClearWebviewCache,
}

/// What the shell has to carry out for a command.
#[derive(Clone, Debug, PartialEq, Eq)]
pub enum Effect {
    /// Write the bytes to the file at the path.
    Write { path: String, data: Vec<u8> },
    /// Run the order that ends the helper.
    Kill { order: KillOrder },
    /// Look for these directories below the local data directory, and remove
    /// those that exist.
    Clear { targets: Vec<CacheTarget> },
    /// Nothing: the command has no effect on this platform.
    Nothing,
}

/// Turns a command into its effect.
///
/// A save passes its path and its bytes on as they came: the path is not
/// checked, resolved or confined, and the bytes are not changed. Ending the
/// helper and clearing the caches have an effect only where the platform has
/// a helper, or keeps such caches.
pub fn effect_of(command: Command, caps: &Capabilities) -> (effect: Effect)
    ensures
        match command {
            Command::SaveFile { path, data } => effect == (Effect::Write { path, data }),
            Command::KillBridge => if caps.sidecar {
                effect matches Effect::Kill { order } && order.program@ == kill_program()
                    && order.args.deep_view() == kill_args()
            } else {
                effect is Nothing
            },
            Command::ClearWebviewCache => if caps.webview_cache {
                effect matches Effect::Clear { targets: found } && found@ == targets(*caps)
            } else {
                effect is Nothing
            },
        },
{
    match command {
        Command::SaveFile { path, data } => Effect::Write { path, data },
        Command::KillBridge => match kill_order(caps) {
            Some(order) => Effect::Kill { order },
            None => Effect::Nothing,
        },
        Command::ClearWebviewCache => {
            if caps.webview_cache {
                Effect::Clear { targets: cache_targets(caps) }
            } else {
                Effect::Nothing
            }
        },
    }
}

} // verus!
