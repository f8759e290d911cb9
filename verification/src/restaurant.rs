//! The front-of-house service actions. They keep no state of their own;
//! they exist so that callers outside the crate have a stable entry point
//! for seating a party.

use vstd::prelude::*;

verus! {

/// Puts the next party on the host's waitlist. The list itself lives with
/// the host, outside this crate, so the call has no observable effect here.
pub fn add_to_waitlist() {
}

/// A customer arrives and is put on the waitlist; the host is asked twice
/// so a dropped request is tolerated.
pub fn eat_at_restaurant() {
    add_to_waitlist();
    add_to_waitlist();
}

} // verus!
