use hmi_core::buttons::{on_button_edge, ButtonLine, Buttons, PressedButton};
use hmi_core::clock::{Clock, Time};
use hmi_core::controller::{handle_event, render_frame};
use hmi_core::display::{ClockState, Display, DrawCommand, EditMode, Gui, SensorError};

fn fresh_gui() -> Gui {
    Gui::new(Display::new())
}

fn editing_gui(edit: EditMode, time: Time) -> Gui {
    Gui {
        display: Display::new(),
        pointer: 1,
        clock: ClockState { edit, time },
        rerender: false,
    }
}

#[test]
fn left_event_moves_backward_and_is_consumed() {
    let mut gui = fresh_gui();
    let mut clock = Clock::new(0);
    let mut pressed = PressedButton::Left;
    handle_event(&mut gui, &mut pressed, &mut clock);
    assert_eq!(gui.pointer, 1);
    assert_eq!(pressed, PressedButton::Idle);
}

#[test]
fn right_event_moves_forward_and_is_consumed() {
    let mut gui = fresh_gui();
    let mut clock = Clock::new(0);
    let mut pressed = PressedButton::Right;
    handle_event(&mut gui, &mut pressed, &mut clock);
    assert_eq!(gui.pointer, 1);
    assert_eq!(pressed, PressedButton::Idle);
}

#[test]
fn short_press_rotates_the_edit_target_and_is_consumed() {
    let mut gui = editing_gui(EditMode::Hours, Time { hours: 6, minutes: 0, seconds: 0 });
    let mut clock = Clock::new(0);
    let mut pressed = PressedButton::ShortPress;
    handle_event(&mut gui, &mut pressed, &mut clock);
    assert_eq!(gui.clock.edit, EditMode::Minutes);
    assert_eq!(pressed, PressedButton::Idle);
}

#[test]
fn short_press_outside_edit_mode_is_still_consumed() {
    let mut gui = fresh_gui();
    let mut clock = Clock::new(0);
    let mut pressed = PressedButton::ShortPress;
    handle_event(&mut gui, &mut pressed, &mut clock);
    assert_eq!(gui.pointer, 0);
    assert_eq!(gui.clock.edit, EditMode::NotEditing);
    assert_eq!(pressed, PressedButton::Idle);
}

#[test]
fn long_press_enters_and_commits_edit_mode() {
    let mut gui = fresh_gui();
    let mut clock = Clock::new(12 * 3600);
    gui.pointer = 1;

    let mut pressed = PressedButton::LongPress;
    handle_event(&mut gui, &mut pressed, &mut clock);
    assert_eq!(gui.clock.edit, EditMode::Hours);
    assert_eq!(gui.clock.time, Time { hours: 12, minutes: 0, seconds: 0 });
    assert_eq!(pressed, PressedButton::Idle);

    let mut pressed = PressedButton::Right;
    handle_event(&mut gui, &mut pressed, &mut clock);
    assert_eq!(gui.clock.time.hours, 13);

    let mut pressed = PressedButton::LongPress;
    handle_event(&mut gui, &mut pressed, &mut clock);
    assert_eq!(gui.clock.edit, EditMode::NotEditing);
    assert_eq!(clock.get_time(), Time { hours: 13, minutes: 0, seconds: 0 });
    assert_eq!(pressed, PressedButton::Idle);
}

#[test]
fn idle_slot_leaves_everything_alone() {
    let mut gui = fresh_gui();
    let mut clock = Clock::new(7 * 3600);
    let mut pressed = PressedButton::Idle;
    handle_event(&mut gui, &mut pressed, &mut clock);
    assert_eq!(gui.pointer, 0);
    assert_eq!(pressed, PressedButton::Idle);
    assert_eq!(clock.get_time(), Time { hours: 7, minutes: 0, seconds: 0 });
}

#[test]
fn two_rapid_left_edges_yield_one_backward_step() {
    let mut gui = fresh_gui();
    let mut clock = Clock::new(0);
    let mut ticks = 0u8;
    let mut pressed = PressedButton::Idle;

    for _ in 0..2 {
        let mut buttons = Buttons {
            enter: ButtonLine { pending: false, low: false },
            left: ButtonLine { pending: true, low: true },
            right: ButtonLine { pending: false, low: false },
        };
        on_button_edge(&mut buttons, &mut ticks, &mut pressed);
    }

    handle_event(&mut gui, &mut pressed, &mut clock);
    assert_eq!(gui.pointer, 1);
    assert_eq!(pressed, PressedButton::Idle);

    handle_event(&mut gui, &mut pressed, &mut clock);
    assert_eq!(gui.pointer, 1);
}

#[test]
fn frame_renders_header_measurements_and_skips_clock_panel() {
    let clock = Clock::new(0);
    let mut gui = fresh_gui();
    gui.rerender = true;
    render_frame(&mut gui, Ok((20, 50, 99000)), &clock);
    assert_eq!(
        gui.display.commands,
        vec![
            DrawCommand::Clear,
            DrawCommand::HeaderFrame,
            DrawCommand::TextSmall { text: "Measurements".to_string(), x: 16, y: 3 },
            DrawCommand::TextLarge {
                text: "T: 20 C\n\nH: 50 %\n\nP: 99000 Pa".to_string(),
                x: 0,
                y: 30,
            },
        ]
    );
    assert!(!gui.rerender);
}

#[test]
fn frame_renders_clock_panel_on_clock_view() {
    let clock = Clock::new(9 * 3600 + 8 * 60 + 7);
    let mut gui = fresh_gui();
    gui.pointer = 1;
    render_frame(&mut gui, Ok((20, 50, 99000)), &clock);
    assert_eq!(
        gui.display.commands,
        vec![
            DrawCommand::HeaderFrame,
            DrawCommand::TextSmall { text: "Clock".to_string(), x: 44, y: 3 },
            DrawCommand::TextLarge { text: "09:08:07".to_string(), x: 10, y: 30 },
        ]
    );
}

#[test]
fn sensor_failure_renders_diagnostic_text() {
    let clock = Clock::new(0);
    let mut gui = fresh_gui();
    render_frame(&mut gui, Err(SensorError::InvalidData), &clock);
    assert_eq!(
        gui.display.commands,
        vec![
            DrawCommand::HeaderFrame,
            DrawCommand::TextSmall { text: "Measurements".to_string(), x: 16, y: 3 },
            DrawCommand::TextSmall { text: "InvalidData".to_string(), x: 10, y: 30 },
        ]
    );
}

#[test]
fn each_sensor_error_has_its_own_diagnostic() {
    let cases = [
        (SensorError::Bus, "BusError"),
        (SensorError::CompensationFailed, "CompensationFailed"),
        (SensorError::InvalidData, "InvalidData"),
        (SensorError::NoCalibrationData, "NoCalibrationData"),
        (SensorError::UnsupportedChip, "UnsupportedChip"),
    ];
    for (err, text) in cases {
        let mut gui = fresh_gui();
        gui.print_error(err);
        assert_eq!(
            gui.display.commands,
            vec![DrawCommand::TextSmall { text: text.to_string(), x: 10, y: 30 }]
        );
    }
}

#[test]
fn error_text_clears_on_a_dirty_flag() {
    let mut gui = fresh_gui();
    gui.rerender = true;
    gui.print_error(SensorError::Bus);
    assert_eq!(
        gui.display.commands,
        vec![
            DrawCommand::Clear,
            DrawCommand::TextSmall { text: "BusError".to_string(), x: 10, y: 30 },
        ]
    );
    assert!(!gui.rerender);
}

#[test]
fn sensor_failure_never_blocks_navigation() {
    let mut clock = Clock::new(0);
    let mut gui = fresh_gui();
    render_frame(&mut gui, Err(SensorError::Bus), &clock);
    let mut pressed = PressedButton::Right;
    handle_event(&mut gui, &mut pressed, &mut clock);
    assert_eq!(gui.pointer, 1);
}
