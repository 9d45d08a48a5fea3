//! Verified core of a small Home Assistant automation client.

pub mod automagic;
pub mod config;
pub mod hass;
pub mod hass_client;
pub mod model;
pub mod time;

use vstd::prelude::*;

verus! {

/// The capacity of the channels between the client's tasks.
pub const CHANNEL_SIZE: usize = 10;

/// The capacity of the channel that carries events to the automations: at least 32,
/// so that a burst of events does not push events out before they are read.
pub fn event_channel_capacity() -> (r: usize)
    ensures
        r == (if CHANNEL_SIZE > 32 { CHANNEL_SIZE } else { 32 }),
{
    if CHANNEL_SIZE > 32 {
        CHANNEL_SIZE
    } else {
        32
    }
}

} // verus!
