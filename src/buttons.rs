//! Classifying button samples: holds that end a session, and presses that
//! step a mode. The samples themselves come from the caller, already
//! debounced: a pressed sample stands for one debounce period.
use vstd::prelude::*;
use crate::utils::Mode;

verus! {

/// How long a button must be held to complete a hold, in milliseconds.
pub const HOLD_TIME: u16 = 2000;

/// How long a hold may last and still count as a click, in milliseconds.
pub const BUTTON_CLICK_TIME: u16 = 150;

/// The settle delay that follows every pressed sample, in milliseconds.
pub const DEBOUNCE_TIME: u16 = 150;

/// What a hold tracker reports after a sample.
#[derive(Clone, Copy, Debug, PartialEq, Eq, Structural)]
pub enum Hold {
    Continue,
    Complete,
}

/// The hold counter after a sample.
pub open spec fn hold_next(counter: int, pressed: bool) -> int {
    if pressed {
        counter + DEBOUNCE_TIME
    } else {
        0
    }
}

/// Whether a sample completes the hold.
pub open spec fn hold_done(counter: int, pressed: bool) -> bool {
    pressed && counter + DEBOUNCE_TIME >= HOLD_TIME
}

/// Adds one debounce period to a pressed counter and reports whether it
/// reached the hold time.
pub fn hold_handler(hold_time: &mut u16) -> (r: Hold)
    requires
        *old(hold_time) + DEBOUNCE_TIME <= u16::MAX,
    ensures
        *final(hold_time) == hold_next(*old(hold_time) as int, true),
        (r == Hold::Complete) == hold_done(*old(hold_time) as int, true),
{
    *hold_time = *hold_time + DEBOUNCE_TIME;
    if *hold_time >= HOLD_TIME {
        Hold::Complete
    } else {
        Hold::Continue
    }
}

/// Feeds one sample of a button into its hold counter: a pressed sample
/// adds the debounce period and completes the hold once the counter
/// reaches the hold time; a released sample resets the counter.
pub fn button_hold(hold_time: &mut u16, pressed: bool) -> (r: Hold)
    requires
        pressed ==> *old(hold_time) + DEBOUNCE_TIME <= u16::MAX,
    ensures
        *final(hold_time) == hold_next(*old(hold_time) as int, pressed),
        (r == Hold::Complete) == hold_done(*old(hold_time) as int, pressed),
{
    if pressed {
        hold_handler(hold_time)
    } else {
        *hold_time = 0;
        Hold::Continue
    }
}

/// Held from release, a button completes its hold on the fourteenth
/// pressed sample and on no earlier one; a released sample resets the
/// counter.
pub proof fn lemma_hold_completes_on_fourteenth(k: nat, counter: int)
    requires
        k < 14,
    ensures
        hold_next(DEBOUNCE_TIME * k, true) == DEBOUNCE_TIME * (k + 1),
        hold_done(DEBOUNCE_TIME * k, true) <==> k == 13,
        hold_next(counter, false) == 0,
        !hold_done(counter, false),
{
}

/// The mode after a forward and a backward press, in that order.
pub open spec fn mode_after<T: Mode>(mode: T, forward: bool, backward: bool) -> T {
    let stepped = if forward {
        mode.next_spec()
    } else {
        mode
    };
    if backward {
        stepped.prev_spec()
    } else {
        stepped
    }
}

/// Steps `mode` forward on a press of the forward button, then back on a
/// press of the backward button; tells whether either was pressed.
pub fn mode_change<T: Mode>(mode: &mut T, forward: bool, backward: bool) -> (r: bool)
    ensures
        *final(mode) == mode_after(*old(mode), forward, backward),
        r == (forward || backward),
{
    if forward {
        *mode = mode.next();
    }
    if backward {
        *mode = mode.prev();
    }
    forward || backward
}

} // verus!
