//! The diagnostic report emitted when the wait resolves.
//!
//! Resolving the wait asks the host to emit exactly one message, at
//! informational severity, with a fixed non-empty text. Where a reporting
//! hook is configured the message goes through it; where none is, it goes
//! to the fallback output stream. Either way the report is a plain value:
//! producing it cannot fail, and it never affects the resolution itself.

use crate::severity::Severity;
use vstd::prelude::*;

verus! {

/// Where the resolution report goes: the configured hook, or the default
/// fallback stream when no hook is configured.
#[derive(Clone, Copy, Debug, PartialEq, Eq, Structural)]
pub enum Sink {
    Hook,
    Fallback,
}

/// The one report that resolving the wait asks the host to emit.
pub struct Report {
    pub sink: Sink,
    pub severity: Severity,
    pub message: String,
}

/// The fixed message reported when the waiter resolves.
pub open spec fn shutdown_message_spec() -> Seq<char> {
    "Signal received, shutdown now..."@
}

/// The fixed message reported when the waiter resolves, as a value.
pub fn shutdown_message() -> (s: String)
    ensures
        s@ == shutdown_message_spec(),
        s@.len() > 0,
{
    proof {
        reveal_strlit("Signal received, shutdown now...");
    }
    "Signal received, shutdown now...".to_owned()
}

/// The report for one resolution of the wait: informational severity and
/// the fixed non-empty message, through the hook where one is configured
/// and the fallback stream where none is.
pub fn resolution_report(hook_configured: bool) -> (r: Report)
    ensures
        r.severity == Severity::Info,
        r.message@ == shutdown_message_spec(),
        r.message@.len() > 0,
        r.sink == (if hook_configured {
            Sink::Hook
        } else {
            Sink::Fallback
        }),
{
    let message = shutdown_message();
    let sink = if hook_configured {
        Sink::Hook
    } else {
        Sink::Fallback
    };
    Report { sink, severity: Severity::Info, message }
}

} // verus!
