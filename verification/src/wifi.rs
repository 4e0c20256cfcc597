//! Decisions about the wireless link. Bringing the link up and reading its
//! signal strength are left to the caller.

use vstd::prelude::*;

verus! {

/// Number of seconds to wait for a connection before giving up.
pub const CONNECT_WAIT_S: u32 = 30;

/// What to do about the link in one cycle.
#[derive(Clone, Copy, Debug, PartialEq, Eq, Structural)]
pub enum LinkAction {
    /// The link is up: use it.
    Up,
    /// There is no link and none can be made: go on without.
    Down,
    /// There is no signal: try to connect again, and use the link where that
    /// works.
    Reconnect,
}

/// What to do about the link, from the signal strength, which is zero while
/// there is no signal, and from whether there is a wireless device at all.
pub open spec fn link_action(rssi: i32, has_device: bool) -> LinkAction {
    if rssi != 0 {
        LinkAction::Up
    } else if has_device {
        LinkAction::Reconnect
    } else {
        LinkAction::Down
    }
}

/// Decides what to do about the link in this cycle.
pub fn assess_link(rssi: i32, has_device: bool) -> (action: LinkAction)
    ensures
        action == link_action(rssi, has_device),
{
    if rssi != 0 {
        LinkAction::Up
    } else if has_device {
        LinkAction::Reconnect
    } else {
        LinkAction::Down
    }
}

/// Whether the wait for a connection has lasted too long after `waited`
/// seconds.
pub fn connect_wait_expired(waited: u32) -> (expired: bool)
    ensures
        expired == (waited > CONNECT_WAIT_S),
{
    waited > CONNECT_WAIT_S
}

} // verus!
