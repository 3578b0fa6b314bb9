use hmi_core::tone::{Tone, ToneStep};

#[test]
fn song_is_enabled_tuned_held_and_disabled() {
    let tone = Tone::new();
    let steps = tone.play_song(&[('g', 2), ('c', 1)]);
    assert_eq!(
        steps,
        vec![
            ToneStep::Enable,
            ToneStep::SetPeriod(392),
            ToneStep::DelayMs(200),
            ToneStep::SetPeriod(262),
            ToneStep::DelayMs(100),
            ToneStep::Disable,
        ]
    );
}

#[test]
fn unknown_note_keeps_previous_period() {
    let tone = Tone::new();
    let steps = tone.play_song(&[('x', 3)]);
    assert_eq!(steps, vec![ToneStep::Enable, ToneStep::DelayMs(300), ToneStep::Disable]);
}

#[test]
fn empty_song_only_toggles_the_channel() {
    let tone = Tone::new();
    let steps = tone.play_song(&[]);
    assert_eq!(steps, vec![ToneStep::Enable, ToneStep::Disable]);
}

#[test]
fn the_whole_scale_is_tuned() {
    let tone = Tone::new();
    let expected = [
        ('c', 262),
        ('d', 293),
        ('e', 329),
        ('f', 349),
        ('g', 392),
        ('a', 440),
        ('b', 494),
        ('C', 523),
    ];
    for (note, freq) in expected {
        let steps = tone.play_song(&[(note, 1)]);
        assert_eq!(steps[1], ToneStep::SetPeriod(freq));
    }
}
