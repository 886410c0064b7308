//! The hint that Shift+drag selects text in programs that read the mouse.

use vstd::prelude::*;

verus! {

/// The hint shows in window `id`: it was raised there and has not run out.
pub open spec fn hint_live(hint: Option<(u64, u64)>, id: u64, now: u64) -> bool {
    hint matches Some((until, window)) && window == id && now < until
}

/// Whether the hint shows in window `id`.
pub fn shift_hint_live_in(hint: Option<(u64, u64)>, id: u64, now: u64) -> (r: bool)
    ensures
        r == hint_live(hint, id, now),
{
    match hint {
        Some((until, window)) => window == id && now < until,
        None => false,
    }
}

/// One drag lights the hint in one window only.
pub proof fn law_hint_in_one_window(hint: Option<(u64, u64)>, a: u64, b: u64, now: u64)
    requires
        hint_live(hint, a, now),
        hint_live(hint, b, now),
    ensures
        a == b,
{
}

/// The hint shows in its own window until its time is up, and nowhere without
/// one.
pub proof fn law_hint_shows_until_its_time(until: u64, window: u64, id: u64, now: u64)
    ensures
        now < until ==> hint_live(Some((until, window)), window, now),
        now >= until ==> !hint_live(Some((until, window)), id, now),
        id != window ==> !hint_live(Some((until, window)), id, now),
        !hint_live(None, id, now),
{
}

} // verus!
