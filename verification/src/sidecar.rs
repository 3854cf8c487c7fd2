//! Stopping the helper process.
//!
//! The helper is a separate executable that ships with the application.
//! While it runs, its file is locked, so an installer cannot replace it. The
//! shell therefore ends it before an update is installed and when the
//! application exits. Where no helper exists there is nothing to do.

use crate::platform::Capabilities;
use vstd::prelude::*;
use vstd::string::StringExecFns;

verus! {

/// A program to run with arguments, in order to end the helper.
#[derive(Clone, Debug, PartialEq, Eq)]
pub struct KillOrder {
    pub program: String,
    pub args: Vec<String>,
}

/// The program that ends a process by its image name.
pub open spec fn kill_program() -> Seq<char> {
    "taskkill"@
}

/// Its arguments: end by force the process whose image is the helper.
pub open spec fn kill_args() -> Seq<Seq<char>> {
    seq!["/F"@, "/IM"@, "nmea-bridge.exe"@]
}

/// How to end the helper on this platform: by one fixed command where the
/// helper exists, and not at all where it does not. Whether the helper is
/// running is not looked at; the command is given either way.
pub fn kill_order(caps: &Capabilities) -> (order: Option<KillOrder>)
    ensures
        order is Some <==> caps.sidecar,
        order matches Some(o) ==> o.program@ == kill_program() && o.args.deep_view()
            == kill_args(),
{
    if caps.sidecar {
        let mut args: Vec<String> = Vec::new();
        args.push(String::from_str("/F"));
        args.push(String::from_str("/IM"));
        args.push(String::from_str("nmea-bridge.exe"));
        Some(KillOrder { program: String::from_str("taskkill"), args })
    } else {
        None
    }
}

} // verus!
