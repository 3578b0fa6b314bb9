//! The decisions of the background loop: consume the pending button event
//! exactly once, and drive one full redraw cycle from the current view,
//! the latest sensor reading and the hardware clock.

use crate::buttons::PressedButton;
use crate::clock::{Clock, Time};
use crate::display::{
    spec_clear_ops, spec_clock_ops, spec_error_text, spec_header_ops, spec_measurements_text,
    Gui, Op, SensorError,
};
use vstd::prelude::*;

verus! {

/// Poll the single-slot event mailbox once. Every logical event is
/// consumed exactly once (the slot resets to idle) and dispatched to the
/// menu: a direction event moves the selection or steps the edited field,
/// a short confirm press rotates the edit target, and a long confirm
/// press enters edit mode seeded from the hardware clock or commits the
/// edited time back to it. An idle slot leaves everything alone.
pub fn handle_event(gui: &mut Gui, pressed: &mut PressedButton, clock: &mut Clock)
    requires
        old(gui).wf(),
        old(clock).wf(),
    ensures
        *old(pressed) == PressedButton::Left ==> *final(gui) == old(gui).spec_backward()
            && final(clock)@ == old(clock)@,
        *old(pressed) == PressedButton::Right ==> *final(gui) == old(gui).spec_forward()
            && final(clock)@ == old(clock)@,
        *old(pressed) == PressedButton::ShortPress ==> *final(gui) == old(gui).spec_select()
            && final(clock)@ == old(clock)@,
        *old(pressed) == PressedButton::LongPress ==> *final(gui) == old(gui).spec_confirm(
            old(clock)@,
        ) && final(clock)@ == (match old(gui).spec_commit() {
            Some(t) => t,
            None => old(clock)@,
        }),
        *old(pressed) == PressedButton::Idle ==> *final(gui) == *old(gui)
            && final(clock)@ == old(clock)@,
        *final(pressed) == (if *old(pressed) == PressedButton::Idle {
            *old(pressed)
        } else {
            PressedButton::Idle
        }),
        final(gui).wf(),
        final(clock).wf(),
{
    match *pressed {
        PressedButton::Left => {
            gui.backward();
            *pressed = PressedButton::Idle;
        }
        PressedButton::Right => {
            gui.forward();
            *pressed = PressedButton::Idle;
        }
        PressedButton::ShortPress => {
            gui.select();
            *pressed = PressedButton::Idle;
        }
        PressedButton::LongPress => {
            gui.edit_clock(clock);
            *pressed = PressedButton::Idle;
        }
        PressedButton::Idle => {}
    }
}

/// The drawing calls one whole redraw cycle issues: the header for the
/// current view, then the measurement panel or the sensor diagnostic,
/// then the clock panel.
pub open spec fn spec_frame_ops(
    g: Gui,
    measurement: Result<(u8, u8, u32), SensorError>,
    hw: Time,
) -> Seq<Op> {
    spec_clear_ops(g.rerender) + spec_header_ops(g.spec_current_view()) + (match measurement {
        Result::Ok(stats) => if g.pointer == 0 {
            seq![Op::TextLarge { text: spec_measurements_text(stats), x: 0, y: 30 }]
        } else {
            Seq::empty()
        },
        Result::Err(e) => seq![Op::TextSmall { text: spec_error_text(e), x: 10, y: 30 }],
    }) + (if g.pointer == 1 {
        spec_clock_ops(g.clock, hw)
    } else {
        Seq::empty()
    })
}

/// One redraw cycle of the background loop: draw the header, then the
/// measurements — or the sensor failure's diagnostic text — then the
/// clock panel. Afterwards no redraw is pending and navigation state is
/// untouched.
pub fn render_frame(
    gui: &mut Gui,
    measurement: Result<(u8, u8, u32), SensorError>,
    clock: &Clock,
)
    requires
        old(gui).wf(),
        clock.wf(),
    ensures
        final(gui).display@ == old(gui).display@
            + spec_frame_ops(*old(gui), measurement, clock@),
        final(gui).rerender == false,
        final(gui).pointer == old(gui).pointer,
        final(gui).clock == old(gui).clock,
        final(gui).wf(),
{
    gui.print_header();
    match measurement {
        Result::Ok(stats) => {
            gui.print_measurements(stats);
        }
        Result::Err(e) => {
            gui.print_error(e);
        }
    }
    gui.print_clock(clock);
    proof {
        assert(final(gui).display@ =~= old(gui).display@
            + spec_frame_ops(*old(gui), measurement, clock@));
    }
}

} // verus!
