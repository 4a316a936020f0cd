//! Port allocation for one launch attempt. The allocator is asked for
//! an unused local port exactly once per attempt, before the process is
//! started; when it offers nothing, the launch falls back to a fixed
//! default instead of failing.

use vstd::prelude::*;

verus! {

/// The fallback port used when no unused port can be found.
pub const DEFAULT_PORT: u16 = 8111;

/// Relies on portpicker::pick_unused_port: a port observed unused on
/// both TCP and UDP, or nothing when every candidate it tried was
/// taken. The result depends on the machine's ports at that moment, so
/// nothing is promised of its value.
#[verifier::external_body]
fn pick_unused_port() -> (r: Option<u16>) {
    portpicker::pick_unused_port()
}

/// The port a launch uses, given what the allocator offered: the
/// offered port when there is one, the fixed default otherwise. A zero
/// offer (which no real allocator makes) falls back too, so the result
/// is never 0 — the slot reserves 0 for "no launch ever completed".
pub open spec fn resolved_port(picked: Option<u16>) -> u16 {
    match picked {
        Some(p) => if p != 0 {
            p
        } else {
            DEFAULT_PORT
        },
        None => DEFAULT_PORT,
    }
}

/// Resolves the allocator's offer to the port the launch binds.
pub fn resolve_port(picked: Option<u16>) -> (port: u16)
    ensures
        port == resolved_port(picked),
        port != 0,
{
    match picked {
        Some(p) => if p != 0 {
            p
        } else {
            DEFAULT_PORT
        },
        None => DEFAULT_PORT,
    }
}

/// Allocates the port for one launch attempt: an unused port when one
/// can be found, the default otherwise. Never 0.
pub fn allocate_port() -> (port: u16)
    ensures
        port != 0,
{
    let picked = pick_unused_port();
    resolve_port(picked)
}

} // verus!
