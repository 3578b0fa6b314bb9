//! The interrupt-driven button classifier: raw edge interrupts plus the
//! periodic press-duration counter become logical button events, delivered
//! through a single-slot mailbox that overwrites rather than queues.

use vstd::prelude::*;

verus! {

/// The logical button event pending for the background loop. At most one
/// is retained; a new edge overwrites an unconsumed one.
#[derive(Copy, Clone, Debug, PartialEq, Eq, Structural)]
pub enum PressedButton {
    Left,
    Right,
    ShortPress,
    LongPress,
    Idle,
}

/// Snapshot of one edge-interrupt button line at service time: whether its
/// interrupt is pending, and whether the line reads low (pressed, with the
/// pull-up inputs used here).
#[derive(Copy, Clone, Debug, PartialEq, Eq, Structural)]
pub struct ButtonLine {
    pub pending: bool,
    pub low: bool,
}

/// The three button lines: confirm, left and right.
#[derive(Copy, Clone, Debug, PartialEq, Eq, Structural)]
pub struct Buttons {
    pub enter: ButtonLine,
    pub left: ButtonLine,
    pub right: ButtonLine,
}

/// A confirm press held for more than this many periodic ticks counts as a
/// long press; held for this many or fewer, as a short press.
pub const LONG_PRESS_THRESHOLD: u8 = 3;

/// The press counter and event slot after one edge interrupt: a falling
/// confirm edge restarts the press counter; a rising confirm edge emits a
/// short or long press depending on the counter; a falling left or right
/// edge emits its direction; anything else leaves the slot alone.
pub open spec fn spec_classify(b: Buttons, ticks: u8, prev: PressedButton) -> (u8, PressedButton) {
    if b.enter.pending {
        if b.enter.low {
            (0u8, prev)
        } else if ticks > LONG_PRESS_THRESHOLD {
            (ticks, PressedButton::LongPress)
        } else {
            (ticks, PressedButton::ShortPress)
        }
    } else if b.left.pending && b.left.low {
        (ticks, PressedButton::Left)
    } else if b.right.pending && b.right.low {
        (ticks, PressedButton::Right)
    } else {
        (ticks, prev)
    }
}

/// Whether this snapshot makes the classifier write a logical event into
/// the slot, as opposed to leaving the previous event in place.
pub open spec fn spec_emits_event(b: Buttons) -> bool {
    ||| b.enter.pending && !b.enter.low
    ||| !b.enter.pending && b.left.pending && b.left.low
    ||| !b.enter.pending && !(b.left.pending && b.left.low) && b.right.pending && b.right.low
}

/// Service a button edge interrupt: classify the edge into a logical event
/// written over whatever the slot held, and acknowledge every line's
/// pending interrupt — whichever line fired — so no re-trigger is missed.
pub fn on_button_edge(buttons: &mut Buttons, press_ticks: &mut u8, pressed: &mut PressedButton)
    ensures
        ({
            let (ticks, event) = spec_classify(*old(buttons), *old(press_ticks), *old(pressed));
            *final(press_ticks) == ticks && *final(pressed) == event
        }),
        final(buttons).enter == (ButtonLine { pending: false, ..old(buttons).enter }),
        final(buttons).left == (ButtonLine { pending: false, ..old(buttons).left }),
        final(buttons).right == (ButtonLine { pending: false, ..old(buttons).right }),
{
    if buttons.enter.pending {
        if buttons.enter.low {
            *press_ticks = 0;
        } else if *press_ticks > LONG_PRESS_THRESHOLD {
            *pressed = PressedButton::LongPress;
        } else {
            *pressed = PressedButton::ShortPress;
        }
    } else if buttons.left.pending && buttons.left.low {
        *pressed = PressedButton::Left;
    } else if buttons.right.pending && buttons.right.low {
        *pressed = PressedButton::Right;
    }
    buttons.enter.pending = false;
    buttons.left.pending = false;
    buttons.right.pending = false;
}

/// One periodic tick: advance the press-duration counter, wrapping at the
/// top of its range, and toggle the heartbeat indicator.
pub fn on_tick(press_ticks: &mut u8, heartbeat: &mut bool)
    ensures
        *final(press_ticks) == (*old(press_ticks) + 1) % 256,
        *final(heartbeat) == !*old(heartbeat),
{
    *press_ticks = if *press_ticks == 255 {
        0
    } else {
        *press_ticks + 1
    };
    *heartbeat = !*heartbeat;
}

/// Law: a confirm release after at most the threshold number of ticks
/// classifies as a short press; after more than the threshold, as a long
/// press.
pub proof fn lemma_press_classification(b: Buttons, ticks: u8, prev: PressedButton)
    requires
        b.enter.pending,
        !b.enter.low,
    ensures
        ticks <= LONG_PRESS_THRESHOLD ==> spec_classify(b, ticks, prev).1
            == PressedButton::ShortPress,
        ticks > LONG_PRESS_THRESHOLD ==> spec_classify(b, ticks, prev).1
            == PressedButton::LongPress,
{
}

/// Law: the event slot is a last-write-wins mailbox. An edge that emits an
/// event yields the same slot contents whatever unconsumed event it
/// overwrites — events are never queued.
pub proof fn lemma_last_write_wins(b: Buttons, ticks: u8, p1: PressedButton, p2: PressedButton)
    requires
        spec_emits_event(b),
    ensures
        spec_classify(b, ticks, p1).1 == spec_classify(b, ticks, p2).1,
{
}

} // verus!
