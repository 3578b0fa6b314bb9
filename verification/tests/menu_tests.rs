use hmi_core::clock::{Clock, Time};
use hmi_core::display::{ClockState, Display, DrawCommand, EditMode, Gui, View};

fn fresh_gui() -> Gui {
    Gui::new(Display::new())
}

fn editing_gui(edit: EditMode, time: Time) -> Gui {
    Gui {
        display: Display::new(),
        pointer: 1,
        clock: ClockState { edit, time },
        rerender: false,
    }
}

#[test]
fn new_gui_starts_on_measurements() {
    let gui = fresh_gui();
    assert_eq!(gui.pointer, 0);
    assert!(matches!(gui.current_menu_item(), View::Measure));
    assert!(!gui.rerender);
}

#[test]
fn forward_backward_returns_pointer() {
    for start in [0u8, 1] {
        let mut gui = fresh_gui();
        gui.pointer = start;
        gui.forward();
        gui.backward();
        assert_eq!(gui.pointer, start);
        let mut gui = fresh_gui();
        gui.pointer = start;
        gui.backward();
        gui.forward();
        assert_eq!(gui.pointer, start);
    }
}

#[test]
fn forward_cycles_with_period_two() {
    let mut gui = fresh_gui();
    gui.forward();
    assert_eq!(gui.pointer, 1);
    gui.forward();
    assert_eq!(gui.pointer, 0);
    gui.forward();
    assert_eq!(gui.pointer, 1);
    gui.forward();
    assert_eq!(gui.pointer, 0);
}

#[test]
fn navigation_marks_display_dirty() {
    let mut gui = fresh_gui();
    gui.forward();
    assert!(gui.rerender);
}

#[test]
fn select_cycles_fields_with_period_three() {
    let mut gui = editing_gui(EditMode::Hours, Time { hours: 0, minutes: 0, seconds: 0 });
    gui.select();
    assert_eq!(gui.clock.edit, EditMode::Minutes);
    gui.select();
    assert_eq!(gui.clock.edit, EditMode::Seconds);
    gui.select();
    assert_eq!(gui.clock.edit, EditMode::Hours);
}

#[test]
fn select_is_a_no_op_when_not_editing() {
    let mut gui = fresh_gui();
    let before = gui.clock;
    gui.select();
    assert_eq!(gui.clock, before);
    assert_eq!(gui.pointer, 0);
    assert!(!gui.rerender);
}

#[test]
fn forward_wraps_hours_at_twenty_three() {
    let mut gui = editing_gui(EditMode::Hours, Time { hours: 23, minutes: 10, seconds: 20 });
    gui.forward();
    assert_eq!(gui.clock.time, Time { hours: 0, minutes: 10, seconds: 20 });
}

#[test]
fn backward_wraps_hours_at_zero() {
    let mut gui = editing_gui(EditMode::Hours, Time { hours: 0, minutes: 10, seconds: 20 });
    gui.backward();
    assert_eq!(gui.clock.time, Time { hours: 23, minutes: 10, seconds: 20 });
}

#[test]
fn forward_and_backward_wrap_minutes_and_seconds() {
    let mut gui = editing_gui(EditMode::Minutes, Time { hours: 1, minutes: 59, seconds: 0 });
    gui.forward();
    assert_eq!(gui.clock.time.minutes, 0);
    let mut gui = editing_gui(EditMode::Minutes, Time { hours: 1, minutes: 0, seconds: 0 });
    gui.backward();
    assert_eq!(gui.clock.time.minutes, 59);
    let mut gui = editing_gui(EditMode::Seconds, Time { hours: 1, minutes: 0, seconds: 59 });
    gui.forward();
    assert_eq!(gui.clock.time.seconds, 0);
    let mut gui = editing_gui(EditMode::Seconds, Time { hours: 1, minutes: 0, seconds: 0 });
    gui.backward();
    assert_eq!(gui.clock.time.seconds, 59);
}

#[test]
fn editing_keeps_pointer_in_place() {
    let mut gui = editing_gui(EditMode::Hours, Time { hours: 5, minutes: 0, seconds: 0 });
    gui.forward();
    assert_eq!(gui.pointer, 1);
    gui.backward();
    assert_eq!(gui.pointer, 1);
}

#[test]
fn confirm_round_trip_edits_hardware_clock() {
    let mut clock = Clock::new(12 * 3600);
    let mut gui = fresh_gui();
    gui.forward();
    assert!(matches!(gui.current_menu_item(), View::Clock(_)));

    gui.edit_clock(&mut clock);
    assert_eq!(gui.clock.edit, EditMode::Hours);
    assert_eq!(gui.clock.time, Time { hours: 12, minutes: 0, seconds: 0 });

    gui.forward();
    gui.forward();
    gui.forward();
    assert_eq!(gui.clock.time, Time { hours: 15, minutes: 0, seconds: 0 });

    gui.select();
    assert_eq!(gui.clock.edit, EditMode::Minutes);

    gui.edit_clock(&mut clock);
    assert_eq!(gui.clock.edit, EditMode::NotEditing);
    assert_eq!(clock.get_time(), Time { hours: 15, minutes: 0, seconds: 0 });
}

#[test]
fn confirm_on_measurement_view_only_marks_dirty() {
    let mut clock = Clock::new(3600);
    let mut gui = fresh_gui();
    let before = gui.clock;
    gui.edit_clock(&mut clock);
    assert_eq!(gui.clock, before);
    assert_eq!(gui.pointer, 0);
    assert!(gui.rerender);
    assert_eq!(clock.get_time(), Time { hours: 1, minutes: 0, seconds: 0 });
}

#[test]
fn header_is_framed_and_centred() {
    let mut gui = fresh_gui();
    gui.print_header();
    assert_eq!(
        gui.display.commands,
        vec![
            DrawCommand::HeaderFrame,
            DrawCommand::TextSmall { text: "Measurements".to_string(), x: 16, y: 3 },
        ]
    );
}

#[test]
fn dirty_header_clears_screen_first() {
    let mut gui = fresh_gui();
    gui.forward();
    gui.print_header();
    assert_eq!(gui.display.commands[0], DrawCommand::Clear);
    assert!(!gui.rerender);
    assert_eq!(
        gui.display.commands[2],
        DrawCommand::TextSmall { text: "Clock".to_string(), x: 44, y: 3 }
    );
}

#[test]
fn editing_header_shows_edit_label() {
    let mut gui = editing_gui(EditMode::Hours, Time { hours: 0, minutes: 0, seconds: 0 });
    gui.print_header();
    assert_eq!(
        gui.display.commands,
        vec![
            DrawCommand::HeaderFrame,
            DrawCommand::TextSmall { text: "Clock (Edit)".to_string(), x: 16, y: 3 },
        ]
    );
}

#[test]
fn measurements_panel_formats_stats() {
    let mut gui = fresh_gui();
    gui.print_measurements((23, 45, 101325));
    assert_eq!(
        gui.display.commands,
        vec![DrawCommand::TextLarge {
            text: "T: 23 C\n\nH: 45 %\n\nP: 101325 Pa".to_string(),
            x: 0,
            y: 30,
        }]
    );
}

#[test]
fn measurements_panel_skipped_on_clock_view() {
    let mut gui = fresh_gui();
    gui.forward();
    let before = gui.display.commands.len();
    gui.print_measurements((1, 2, 3));
    assert_eq!(gui.display.commands.len(), before);
}

#[test]
fn clock_panel_shows_hardware_time_when_viewing() {
    let clock = Clock::new(12 * 3600 + 34 * 60 + 56);
    let mut gui = fresh_gui();
    gui.pointer = 1;
    gui.print_clock(&clock);
    assert_eq!(
        gui.display.commands,
        vec![DrawCommand::TextLarge { text: "12:34:56".to_string(), x: 10, y: 30 }]
    );
}

#[test]
fn clock_panel_underlines_edited_field() {
    let clock = Clock::new(0);
    let mut gui = editing_gui(EditMode::Minutes, Time { hours: 8, minutes: 15, seconds: 0 });
    gui.print_clock(&clock);
    assert_eq!(
        gui.display.commands,
        vec![
            DrawCommand::Underline { x0: 45, y0: 46, x1: 65, y1: 46 },
            DrawCommand::TextLarge { text: "08:15:00".to_string(), x: 10, y: 30 },
        ]
    );
}

#[test]
fn clock_panel_skipped_on_measurement_view() {
    let clock = Clock::new(0);
    let mut gui = fresh_gui();
    gui.print_clock(&clock);
    assert!(gui.display.commands.is_empty());
}

#[test]
fn take_commands_drains_the_record() {
    let mut gui = fresh_gui();
    gui.print_header();
    let cmds = gui.display.take_commands();
    assert_eq!(cmds.len(), 2);
    assert!(gui.display.commands.is_empty());
}
