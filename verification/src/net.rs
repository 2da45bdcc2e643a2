//! Whether networking is on.

use vstd::prelude::*;

verus! {

/// The networking state: off until it is turned on.
pub struct NetState {
    pub networking_enabled: bool,
}

impl NetState {
    /// Networking off.
    pub fn new() -> (r: Self)
        ensures
            !r.networking_enabled,
    {
        Self { networking_enabled: false }
    }
}

/// Whether networking is on.
pub fn networking_enabled(state: &NetState) -> (r: bool)
    ensures
        r == state.networking_enabled,
{
    state.networking_enabled
}

} // verus!
