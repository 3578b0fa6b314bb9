//! The menu state machine: the two-view menu, the clock-edit sub-state,
//! and the rendering of each view as a sequence of drawing commands that
//! the display driver consumes.

use crate::clock::{spec_time_text, Clock, Time};
use crate::text::{decimal, spec_decimal};
use vstd::prelude::*;
use vstd::string::{StrSliceExecFns, StringExecFns};
use vstd::view::View as _;

verus! {

/// Which clock field, if any, is selected for editing. Making the choice a
/// sum type keeps states with two selected fields unrepresentable.
#[derive(Copy, Clone, Debug, PartialEq, Eq, Structural)]
pub enum EditMode {
    NotEditing,
    Hours,
    Minutes,
    Seconds,
}

/// Edit sub-state of the clock view: the field currently selected and the
/// time value being assembled.
#[derive(Copy, Clone, Debug, PartialEq, Eq, Structural)]
pub struct ClockState {
    pub edit: EditMode,
    pub time: Time,
}

impl ClockState {
    /// Whether the clock view is in edit mode.
    pub open spec fn spec_editing(self) -> bool {
        self.edit != EditMode::NotEditing
    }

    /// Start viewing (not editing) the given time.
    pub fn with_time(time: Time) -> (s: ClockState)
        ensures
            s == (ClockState { edit: EditMode::NotEditing, time }),
    {
        ClockState { edit: EditMode::NotEditing, time }
    }

    /// Whether the clock view is in edit mode.
    pub fn editing(&self) -> (r: bool)
        ensures
            r == self.spec_editing(),
    {
        match self.edit {
            EditMode::NotEditing => false,
            _ => true,
        }
    }
}

/// One entry of the menu: the live measurements, or the clock with its
/// edit sub-state.
#[derive(Copy, Clone, Debug, PartialEq, Eq, Structural)]
pub enum View {
    Measure,
    Clock(ClockState),
}

/// A sensor acquisition failure, rendered as a short diagnostic string in
/// place of the measurement panel.
#[derive(Copy, Clone, Debug, PartialEq, Eq, Structural)]
pub enum SensorError {
    Bus,
    CompensationFailed,
    InvalidData,
    NoCalibrationData,
    UnsupportedChip,
}

/// The diagnostic text each sensor error is rendered as.
pub open spec fn spec_error_text(e: SensorError) -> Seq<char> {
    match e {
        SensorError::Bus => "BusError"@,
        SensorError::CompensationFailed => "CompensationFailed"@,
        SensorError::InvalidData => "InvalidData"@,
        SensorError::NoCalibrationData => "NoCalibrationData"@,
        SensorError::UnsupportedChip => "UnsupportedChip"@,
    }
}

impl SensorError {
    /// The diagnostic text for this error.
    pub fn text(&self) -> (r: &'static str)
        ensures
            r@ == spec_error_text(*self),
    {
        match self {
            SensorError::Bus => "BusError",
            SensorError::CompensationFailed => "CompensationFailed",
            SensorError::InvalidData => "InvalidData",
            SensorError::NoCalibrationData => "NoCalibrationData",
            SensorError::UnsupportedChip => "UnsupportedChip",
        }
    }
}

/// One drawing call handed to the display driver.
#[derive(Clone, Debug, PartialEq)]
pub enum DrawCommand {
    /// Wipe the whole screen.
    Clear,
    /// Text in the small font at a pixel position.
    TextSmall { text: String, x: i32, y: i32 },
    /// Text in the large font at a pixel position.
    TextLarge { text: String, x: i32, y: i32 },
    /// The stroked rectangle framing the tab header.
    HeaderFrame,
    /// The line drawn beneath the clock field selected for editing.
    Underline { x0: i32, y0: i32, x1: i32, y1: i32 },
}

/// The mathematical shape of one drawing call.
pub enum Op {
    Clear,
    TextSmall { text: Seq<char>, x: int, y: int },
    TextLarge { text: Seq<char>, x: int, y: int },
    HeaderFrame,
    Underline { x0: int, y0: int, x1: int, y1: int },
}

impl vstd::view::View for DrawCommand {
    type V = Op;

    open spec fn view(&self) -> Op {
        match self {
            DrawCommand::Clear => Op::Clear,
            DrawCommand::TextSmall { text, x, y } => Op::TextSmall {
                text: text@,
                x: *x as int,
                y: *y as int,
            },
            DrawCommand::TextLarge { text, x, y } => Op::TextLarge {
                text: text@,
                x: *x as int,
                y: *y as int,
            },
            DrawCommand::HeaderFrame => Op::HeaderFrame,
            DrawCommand::Underline { x0, y0, x1, y1 } => Op::Underline {
                x0: *x0 as int,
                y0: *y0 as int,
                x1: *x1 as int,
                y1: *y1 as int,
            },
        }
    }
}

/// The display as the menu sees it: the ordered drawing calls issued since
/// the commands were last handed to the driver. The driver performs them
/// in order against the panel.
pub struct Display {
    pub commands: Vec<DrawCommand>,
}

impl vstd::view::View for Display {
    type V = Seq<Op>;

    open spec fn view(&self) -> Seq<Op> {
        self.commands@.map_values(|c: DrawCommand| c@)
    }
}

impl Display {
    /// A display with no drawing calls issued yet.
    pub fn new() -> (d: Display)
        ensures
            d@ == Seq::<Op>::empty(),
    {
        let d = Display { commands: Vec::new() };
        proof {
            assert(d@ =~= Seq::<Op>::empty());
        }
        d
    }

    /// Record one drawing call.
    fn push(&mut self, cmd: DrawCommand)
        ensures
            final(self)@ == old(self)@.push(cmd@),
    {
        self.commands.push(cmd);
        proof {
            assert(final(self)@ =~= old(self)@.push(cmd@));
        }
    }

    /// Issue small-font text at a pixel position.
    pub fn print_text_sm(&mut self, text: &str, x: i32, y: i32)
        ensures
            final(self)@ == old(self)@.push(
                Op::TextSmall { text: text@, x: x as int, y: y as int },
            ),
    {
        self.push(DrawCommand::TextSmall { text: text.to_owned(), x, y });
    }

    /// Issue large-font text at a pixel position.
    pub fn print_text_lg(&mut self, text: &str, x: i32, y: i32)
        ensures
            final(self)@ == old(self)@.push(
                Op::TextLarge { text: text@, x: x as int, y: y as int },
            ),
    {
        self.push(DrawCommand::TextLarge { text: text.to_owned(), x, y });
    }

    /// Issue the tab header: its frame, then the label centred over the
    /// 128-pixel-wide bar in the 8-pixel-wide small font.
    pub fn render_tab_header(&mut self, text: &str)
        requires
            text@.len() <= 16,
        ensures
            final(self)@ == old(self)@ + seq![
                Op::HeaderFrame,
                Op::TextSmall { text: text@, x: (128 - text@.len() * 8) / 2, y: 3 },
            ],
    {
        self.push(DrawCommand::HeaderFrame);
        let width = text.unicode_len() * 8;
        self.print_text_sm(text, ((128 - width as i32)) / 2, 3);
        proof {
            assert(final(self)@ =~= old(self)@ + seq![
                Op::HeaderFrame,
                Op::TextSmall { text: text@, x: (128 - text@.len() * 8) / 2, y: 3 },
            ]);
        }
    }

    /// Issue the underline beneath the clock field selected for editing.
    pub fn print_pointer(&mut self, x0: i32, y0: i32, x1: i32, y1: i32)
        ensures
            final(self)@ == old(self)@.push(
                Op::Underline {
                    x0: x0 as int,
                    y0: y0 as int,
                    x1: x1 as int,
                    y1: y1 as int,
                },
            ),
    {
        self.push(DrawCommand::Underline { x0, y0, x1, y1 });
    }

    /// Issue a whole-screen clear.
    pub fn clear(&mut self)
        ensures
            final(self)@ == old(self)@.push(Op::Clear),
    {
        self.push(DrawCommand::Clear);
    }

    /// Hand the recorded drawing calls to the driver, leaving the record
    /// empty for the next frame.
    pub fn take_commands(&mut self) -> (cmds: Vec<DrawCommand>)
        ensures
            cmds@.map_values(|c: DrawCommand| c@) == old(self)@,
            final(self)@ == Seq::<Op>::empty(),
    {
        let mut cmds: Vec<DrawCommand> = Vec::new();
        core::mem::swap(&mut cmds, &mut self.commands);
        proof {
            assert(final(self)@ =~= Seq::<Op>::empty());
        }
        cmds
    }
}

/// One step forward of a time field with wraparound. Hours wrap at
/// 23 -> 0; letting the wrap happen only past 24 would leave 24 visible
/// for one step, so the comparison is against 23.
pub open spec fn spec_field_forward(t: Time, f: EditMode) -> Time {
    match f {
        EditMode::NotEditing => t,
        EditMode::Hours => Time { hours: ((t.hours + 1) % 24) as u8, ..t },
        EditMode::Minutes => Time { minutes: ((t.minutes + 1) % 60) as u8, ..t },
        EditMode::Seconds => Time { seconds: ((t.seconds + 1) % 60) as u8, ..t },
    }
}

/// One step backward of a time field with wraparound (0 wraps to the top
/// of the range).
pub open spec fn spec_field_backward(t: Time, f: EditMode) -> Time {
    match f {
        EditMode::NotEditing => t,
        EditMode::Hours => Time {
            hours: if t.hours == 0 { 23 } else { (t.hours - 1) as u8 },
            ..t
        },
        EditMode::Minutes => Time {
            minutes: if t.minutes == 0 { 59 } else { (t.minutes - 1) as u8 },
            ..t
        },
        EditMode::Seconds => Time {
            seconds: if t.seconds == 0 { 59 } else { (t.seconds - 1) as u8 },
            ..t
        },
    }
}

/// The next field in the edit rotation: Hours -> Minutes -> Seconds ->
/// Hours.
pub open spec fn spec_rotate(f: EditMode) -> EditMode {
    match f {
        EditMode::NotEditing => EditMode::NotEditing,
        EditMode::Hours => EditMode::Minutes,
        EditMode::Minutes => EditMode::Seconds,
        EditMode::Seconds => EditMode::Hours,
    }
}

/// The menu: a fixed two-entry sequence of views, a wrapping pointer into
/// it, the clock view's edit sub-state, and the redraw-dirty flag. The
/// display belongs to the menu and receives all its drawing calls.
pub struct Gui {
    pub display: Display,
    pub pointer: u8,
    pub clock: ClockState,
    pub rerender: bool,
}

impl Gui {
    /// Well-formedness: the pointer stays inside the two-entry menu, the
    /// edited time is a valid time of day, and edit mode is only ever
    /// entered while the clock view is selected.
    pub open spec fn wf(self) -> bool {
        &&& self.pointer < 2
        &&& self.clock.time.valid()
        &&& self.clock.spec_editing() ==> self.pointer == 1
    }

    /// The fixed two-entry menu as a sequence.
    pub open spec fn spec_menu(self) -> Seq<View> {
        seq![View::Measure, View::Clock(self.clock)]
    }

    /// The view the pointer currently selects.
    pub open spec fn spec_current_view(self) -> View
        recommends
            self.wf(),
    {
        self.spec_menu()[self.pointer as int]
    }

    /// Whether the clock view is both selected and in edit mode, so that
    /// navigation keys adjust the selected field instead of the pointer.
    pub open spec fn spec_editing_clock(self) -> bool {
        self.pointer == 1 && self.clock.spec_editing()
    }

    /// The menu state after one `forward` step: while editing, the
    /// selected field is stepped up with wraparound; otherwise the pointer
    /// advances modulo the menu length. Either way a redraw is due.
    pub open spec fn spec_forward(self) -> Gui {
        if self.spec_editing_clock() {
            Gui {
                clock: ClockState {
                    time: spec_field_forward(self.clock.time, self.clock.edit),
                    ..self.clock
                },
                rerender: true,
                ..self
            }
        } else {
            Gui { pointer: ((self.pointer + 1) % 2) as u8, rerender: true, ..self }
        }
    }

    /// The menu state after one `backward` step, the mirror image of
    /// `spec_forward`.
    pub open spec fn spec_backward(self) -> Gui {
        if self.spec_editing_clock() {
            Gui {
                clock: ClockState {
                    time: spec_field_backward(self.clock.time, self.clock.edit),
                    ..self.clock
                },
                rerender: true,
                ..self
            }
        } else {
            Gui {
                pointer: if self.pointer == 0 { 1 } else { ((self.pointer - 1) as u8) },
                rerender: true,
                ..self
            }
        }
    }

    /// The menu state after one `select` step: while editing, the edit
    /// target rotates to the next field; otherwise nothing happens.
    pub open spec fn spec_select(self) -> Gui {
        if self.spec_editing_clock() {
            Gui {
                clock: ClockState { edit: spec_rotate(self.clock.edit), ..self.clock },
                rerender: true,
                ..self
            }
        } else {
            self
        }
    }

    /// The menu state after a `confirm` on the clock view, given the time
    /// the hardware clock reads at that moment: entering edit mode seeds
    /// the edited time from the hardware and selects the hours field;
    /// leaving it keeps the edited time on show. On the measurement view
    /// only a redraw is due.
    pub open spec fn spec_confirm(self, now: Time) -> Gui {
        if self.pointer == 1 {
            if self.clock.spec_editing() {
                Gui {
                    clock: ClockState { edit: EditMode::NotEditing, ..self.clock },
                    rerender: true,
                    ..self
                }
            } else {
                Gui {
                    clock: ClockState { edit: EditMode::Hours, time: now },
                    rerender: true,
                    ..self
                }
            }
        } else {
            Gui { rerender: true, ..self }
        }
    }

    /// What a `confirm` writes back to the hardware clock: the edited
    /// time, exactly when the clock view was in edit mode.
    pub open spec fn spec_commit(self) -> Option<Time> {
        if self.pointer == 1 && self.clock.spec_editing() {
            Some(self.clock.time)
        } else {
            None
        }
    }

    /// A fresh menu: measurement view selected, clock view showing
    /// midnight and not editing, no redraw due.
    pub fn new(display: Display) -> (g: Gui)
        ensures
            g.display == display,
            g.pointer == 0,
            g.clock == (ClockState { edit: EditMode::NotEditing, time: Time::spec_from_seconds(0) }),
            g.rerender == false,
            g.wf(),
    {
        Gui {
            display,
            pointer: 0,
            clock: ClockState::with_time(Time::from_seconds(0)),
            rerender: false,
        }
    }

    /// The view the pointer currently selects.
    pub fn current_menu_item(&self) -> (v: View)
        requires
            self.wf(),
        ensures
            v == self.spec_current_view(),
    {
        if self.pointer == 0 {
            View::Measure
        } else {
            View::Clock(self.clock)
        }
    }

    /// Step forward: adjust the selected clock field up while editing,
    /// else advance the view pointer, wrapping past the end of the menu.
    pub fn forward(&mut self)
        requires
            old(self).wf(),
        ensures
            *final(self) == old(self).spec_forward(),
            final(self).wf(),
    {
        match self.current_menu_item() {
            View::Clock(state) if state.editing() => {
                let mut st = state;
                match st.edit {
                    EditMode::Hours => {
                        st.time.hours = if st.time.hours >= 23 { 0 } else { st.time.hours + 1 };
                    }
                    EditMode::Minutes => {
                        st.time.minutes =
                            if st.time.minutes >= 59 { 0 } else { st.time.minutes + 1 };
                    }
                    EditMode::Seconds => {
                        st.time.seconds =
                            if st.time.seconds >= 59 { 0 } else { st.time.seconds + 1 };
                    }
                    EditMode::NotEditing => {}
                }
                self.clock = st;
            }
            _ => {
                self.pointer = if self.pointer >= 1 { 0 } else { 1 };
            }
        }
        self.rerender = true;
    }

    /// Step backward: adjust the selected clock field down while editing,
    /// else retreat the view pointer, wrapping past the start of the menu.
    pub fn backward(&mut self)
        requires
            old(self).wf(),
        ensures
            *final(self) == old(self).spec_backward(),
            final(self).wf(),
    {
        match self.current_menu_item() {
            View::Clock(state) if state.editing() => {
                let mut st = state;
                match st.edit {
                    EditMode::Hours => {
                        st.time.hours = if st.time.hours == 0 { 23 } else { st.time.hours - 1 };
                    }
                    EditMode::Minutes => {
                        st.time.minutes =
                            if st.time.minutes == 0 { 59 } else { st.time.minutes - 1 };
                    }
                    EditMode::Seconds => {
                        st.time.seconds =
                            if st.time.seconds == 0 { 59 } else { st.time.seconds - 1 };
                    }
                    EditMode::NotEditing => {}
                }
                self.clock = st;
            }
            _ => {
                self.pointer = if self.pointer == 0 { 1 } else { self.pointer - 1 };
            }
        }
        self.rerender = true;
    }

    /// Rotate the edit target to the next clock field; a no-op on the
    /// measurement view or when not editing.
    pub fn select(&mut self)
        requires
            old(self).wf(),
        ensures
            *final(self) == old(self).spec_select(),
            final(self).wf(),
    {
        if self.pointer == 1 && self.clock.editing() {
            match self.clock.edit {
                EditMode::NotEditing => {}
                EditMode::Hours => {
                    self.clock.edit = EditMode::Minutes;
                }
                EditMode::Minutes => {
                    self.clock.edit = EditMode::Seconds;
                }
                EditMode::Seconds => {
                    self.clock.edit = EditMode::Hours;
                }
            }
            self.rerender = true;
        }
    }

    /// Confirm on the clock view: enter edit mode seeded with the hardware
    /// clock's current time, or, when already editing, push the edited
    /// time back to the hardware clock and leave edit mode.
    pub fn edit_clock(&mut self, clock: &mut Clock)
        requires
            old(self).wf(),
            old(clock).wf(),
        ensures
            *final(self) == old(self).spec_confirm(old(clock)@),
            final(clock)@ == (match old(self).spec_commit() {
                Some(t) => t,
                None => old(clock)@,
            }),
            final(self).wf(),
            final(clock).wf(),
    {
        if self.pointer == 1 {
            if self.clock.editing() {
                clock.set_time(&self.clock.time);
                self.clock.edit = EditMode::NotEditing;
            } else {
                let mut cs = ClockState::with_time(clock.get_time());
                cs.edit = EditMode::Hours;
                self.clock = cs;
            }
        }
        self.rerender = true;
    }

    /// Draw the tab header for the current view, clearing the screen
    /// first when a redraw is due.
    pub fn print_header(&mut self)
        requires
            old(self).wf(),
        ensures
            final(self).display@ == old(self).display@ + spec_clear_ops(old(self).rerender)
                + spec_header_ops(old(self).spec_current_view()),
            final(self).rerender == false,
            final(self).pointer == old(self).pointer,
            final(self).clock == old(self).clock,
            final(self).wf(),
    {
        if self.rerender {
            self.display.clear();
            self.rerender = false;
        }
        proof {
            reveal_strlit("Measurements");
            reveal_strlit("Clock (Edit)");
            reveal_strlit("Clock");
        }
        let text = match self.current_menu_item() {
            View::Measure => "Measurements",
            View::Clock(cs) => if cs.editing() { "Clock (Edit)" } else { "Clock" },
        };
        self.display.render_tab_header(text);
        proof {
            assert(final(self).display@ =~= old(self).display@
                + spec_clear_ops(old(self).rerender)
                + spec_header_ops(old(self).spec_current_view()));
        }
    }

    /// Draw the measurement panel; only the measurement view shows it, so
    /// on the clock view nothing changes.
    pub fn print_measurements(&mut self, stats: (u8, u8, u32))
        requires
            old(self).wf(),
        ensures
            old(self).pointer == 0 ==> {
                &&& final(self).display@ == old(self).display@
                    + spec_clear_ops(old(self).rerender)
                    + seq![Op::TextLarge { text: spec_measurements_text(stats), x: 0, y: 30 }]
                &&& final(self).rerender == false
                &&& final(self).pointer == old(self).pointer
                &&& final(self).clock == old(self).clock
            },
            old(self).pointer != 0 ==> *final(self) == *old(self),
            final(self).wf(),
    {
        if self.pointer == 0 {
            if self.rerender {
                self.display.clear();
                self.rerender = false;
            }
            let mut text = String::new();
            text.append("T: ");
            let t = decimal(stats.0 as u32);
            text.append(t.as_str());
            text.append(" C\n\nH: ");
            let h = decimal(stats.1 as u32);
            text.append(h.as_str());
            text.append(" %\n\nP: ");
            let p = decimal(stats.2);
            text.append(p.as_str());
            text.append(" Pa");
            proof {
                assert(text@ == spec_measurements_text(stats));
            }
            self.display.print_text_lg(text.as_str(), 0, 30);
            proof {
                assert(final(self).display@ =~= old(self).display@
                    + spec_clear_ops(old(self).rerender)
                    + seq![Op::TextLarge { text: spec_measurements_text(stats), x: 0, y: 30 }]);
            }
        }
    }

    /// Draw the clock panel; only the clock view shows it. While editing
    /// it shows the time being assembled with the selected field
    /// underlined, otherwise the hardware clock's current time.
    pub fn print_clock(&mut self, clock: &Clock)
        requires
            old(self).wf(),
            clock.wf(),
        ensures
            old(self).pointer == 1 ==> {
                &&& final(self).display@ == old(self).display@
                    + spec_clear_ops(old(self).rerender)
                    + spec_clock_ops(old(self).clock, clock@)
                &&& final(self).rerender == false
                &&& final(self).pointer == old(self).pointer
                &&& final(self).clock == old(self).clock
            },
            old(self).pointer != 1 ==> *final(self) == *old(self),
            final(self).wf(),
    {
        if self.pointer == 1 {
            if self.rerender {
                self.display.clear();
                self.rerender = false;
            }
            let mut x_position: i32 = 0;
            let text: String;
            if self.clock.editing() {
                text = self.clock.time.format();
                match self.clock.edit {
                    EditMode::NotEditing => {}
                    EditMode::Hours => {
                        x_position = 10;
                    }
                    EditMode::Minutes => {
                        x_position = 45;
                    }
                    EditMode::Seconds => {
                        x_position = 80;
                    }
                }
            } else {
                let now = clock.get_time();
                text = now.format();
            }
            if x_position != 0 {
                self.display.print_pointer(x_position, 46, x_position + 20, 46);
            }
            self.display.print_text_lg(text.as_str(), 10, 30);
            proof {
                assert(final(self).display@ =~= old(self).display@
                    + spec_clear_ops(old(self).rerender)
                    + spec_clock_ops(old(self).clock, clock@));
            }
        }
    }

    /// Draw a sensor failure as its short diagnostic text, in place of the
    /// measurement content, clearing the screen first when a redraw is
    /// due. Navigation state is untouched.
    pub fn print_error(&mut self, error: SensorError)
        ensures
            final(self).display@ == old(self).display@ + spec_clear_ops(old(self).rerender)
                + seq![Op::TextSmall { text: spec_error_text(error), x: 10, y: 30 }],
            final(self).rerender == false,
            final(self).pointer == old(self).pointer,
            final(self).clock == old(self).clock,
    {
        if self.rerender {
            self.display.clear();
            self.rerender = false;
        }
        let text = error.text();
        self.display.print_text_sm(text, 10, 30);
        proof {
            assert(final(self).display@ =~= old(self).display@
                + spec_clear_ops(old(self).rerender)
                + seq![Op::TextSmall { text: spec_error_text(error), x: 10, y: 30 }]);
        }
    }
}

/// Law: from any well-formed non-editing state, one step forward then one
/// step backward returns the view pointer to its original value, and the
/// other way round.
pub proof fn lemma_forward_backward(g: Gui)
    requires
        g.wf(),
        !g.clock.spec_editing(),
    ensures
        g.spec_forward().spec_backward().pointer == g.pointer,
        g.spec_backward().spec_forward().pointer == g.pointer,
{
}

/// Law: from any well-formed non-editing state, repeated forward steps
/// cycle the view pointer with period exactly two.
pub proof fn lemma_forward_period_two(g: Gui)
    requires
        g.wf(),
        !g.clock.spec_editing(),
    ensures
        g.spec_forward().spec_forward().pointer == g.pointer,
        g.spec_forward().pointer != g.pointer,
{
}

/// Law: while editing the clock view, the select rotation visits Hours,
/// Minutes and Seconds in that order and returns to its start after
/// exactly three steps, staying in edit mode throughout; the sum type
/// keeps exactly one field selected at every point of the cycle.
pub proof fn lemma_select_cycle(g: Gui)
    requires
        g.wf(),
        g.spec_editing_clock(),
    ensures
        g.spec_select().spec_select().spec_select().clock.edit == g.clock.edit,
        g.spec_select().clock.edit != g.clock.edit,
        g.spec_select().spec_select().clock.edit != g.clock.edit,
        g.spec_select().spec_select().clock.edit != g.spec_select().clock.edit,
        g.spec_select().spec_editing_clock(),
        g.spec_select().spec_select().spec_editing_clock(),
        g.clock.edit == EditMode::Hours ==> g.spec_select().clock.edit == EditMode::Minutes,
        g.clock.edit == EditMode::Minutes ==> g.spec_select().clock.edit == EditMode::Seconds,
        g.clock.edit == EditMode::Seconds ==> g.spec_select().clock.edit == EditMode::Hours,
{
}

/// Law: stepping an edited field wraps at its range boundary: hours step
/// from 23 to 0 going forward and from 0 to 23 going backward; minutes
/// and seconds do the same at 59 and 0.
pub proof fn lemma_edit_wraparound(t: Time)
    requires
        t.valid(),
    ensures
        t.hours == 23 ==> spec_field_forward(t, EditMode::Hours).hours == 0,
        t.hours == 0 ==> spec_field_backward(t, EditMode::Hours).hours == 23,
        t.minutes == 59 ==> spec_field_forward(t, EditMode::Minutes).minutes == 0,
        t.minutes == 0 ==> spec_field_backward(t, EditMode::Minutes).minutes == 59,
        t.seconds == 59 ==> spec_field_forward(t, EditMode::Seconds).seconds == 0,
        t.seconds == 0 ==> spec_field_backward(t, EditMode::Seconds).seconds == 59,
{
}

/// The screen-clear that a due redraw prepends to the next drawing.
pub open spec fn spec_clear_ops(rerender: bool) -> Seq<Op> {
    if rerender {
        seq![Op::Clear]
    } else {
        Seq::empty()
    }
}

/// The tab-header label of a view.
pub open spec fn spec_header_label(v: View) -> Seq<char> {
    match v {
        View::Measure => "Measurements"@,
        View::Clock(cs) => if cs.spec_editing() {
            "Clock (Edit)"@
        } else {
            "Clock"@
        },
    }
}

/// The drawing calls of the tab header: its frame, then the centred label.
pub open spec fn spec_header_ops(v: View) -> Seq<Op> {
    seq![
        Op::HeaderFrame,
        Op::TextSmall {
            text: spec_header_label(v),
            x: (128 - spec_header_label(v).len() * 8) / 2,
            y: 3,
        },
    ]
}

/// The measurement panel's text.
pub open spec fn spec_measurements_text(stats: (u8, u8, u32)) -> Seq<char> {
    "T: "@ + spec_decimal(stats.0 as u32) + " C\n\nH: "@ + spec_decimal(stats.1 as u32)
        + " %\n\nP: "@ + spec_decimal(stats.2) + " Pa"@
}

/// The underline drawn beneath the clock field selected for editing.
pub open spec fn spec_underline_ops(edit: EditMode) -> Seq<Op> {
    match edit {
        EditMode::NotEditing => Seq::empty(),
        EditMode::Hours => seq![Op::Underline { x0: 10, y0: 46, x1: 30, y1: 46 }],
        EditMode::Minutes => seq![Op::Underline { x0: 45, y0: 46, x1: 65, y1: 46 }],
        EditMode::Seconds => seq![Op::Underline { x0: 80, y0: 46, x1: 100, y1: 46 }],
    }
}

/// The drawing calls of the clock panel: the underline while editing,
/// then the time text.
pub open spec fn spec_clock_ops(cs: ClockState, hw: Time) -> Seq<Op> {
    (if cs.spec_editing() {
        spec_underline_ops(cs.edit) + seq![
            Op::TextLarge { text: spec_time_text(cs.time), x: 10, y: 30 },
        ]
    } else {
        seq![Op::TextLarge { text: spec_time_text(hw), x: 10, y: 30 }]
    })
}

} // verus!
