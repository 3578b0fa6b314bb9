//! The tone sequencer's decisions: which pulse-width periods and delays a
//! song asks of the hardware channel, note by note.

use vstd::prelude::*;

verus! {

/// One instruction to the pulse-width channel playing the melody.
#[derive(Copy, Clone, Debug, PartialEq, Eq, Structural)]
pub enum ToneStep {
    /// Start driving the channel.
    Enable,
    /// Switch the channel to this frequency in hertz.
    SetPeriod(u32),
    /// Hold the current note for this many milliseconds.
    DelayMs(u32),
    /// Stop driving the channel.
    Disable,
}

/// The frequency of one named note of the scale, if the name is known; an
/// unknown name leaves the channel's period as it was.
pub open spec fn spec_frequency(n: char) -> Option<u32> {
    if n == 'c' { Some(262u32) }
    else if n == 'd' { Some(293u32) }
    else if n == 'e' { Some(329u32) }
    else if n == 'f' { Some(349u32) }
    else if n == 'g' { Some(392u32) }
    else if n == 'a' { Some(440u32) }
    else if n == 'b' { Some(494u32) }
    else if n == 'C' { Some(523u32) }
    else { None }
}

/// The steps one note contributes: retune the channel when the note name
/// is known, then hold it for its beat count times the fixed tempo.
pub open spec fn spec_note_steps(note: (char, u32)) -> Seq<ToneStep> {
    (match spec_frequency(note.0) {
        Some(f) => seq![ToneStep::SetPeriod(f)],
        None => Seq::<ToneStep>::empty(),
    }) + seq![ToneStep::DelayMs((note.1 * 100) as u32)]
}

/// The steps of a song's notes, in order.
pub open spec fn spec_song_body(notes: Seq<(char, u32)>) -> Seq<ToneStep>
    decreases notes.len(),
{
    if notes.len() == 0 {
        Seq::empty()
    } else {
        spec_note_steps(notes[0]) + spec_song_body(notes.drop_first())
    }
}

/// Appending one note to a song appends exactly that note's steps.
proof fn lemma_song_body_snoc(notes: Seq<(char, u32)>, note: (char, u32))
    ensures
        spec_song_body(notes.push(note)) == spec_song_body(notes) + spec_note_steps(note),
    decreases notes.len(),
{
    let snoc = notes.push(note);
    assert(snoc[0] == if notes.len() == 0 { note } else { notes[0] });
    if notes.len() == 0 {
        assert(snoc.drop_first() =~= Seq::<(char, u32)>::empty());
        assert(spec_song_body(snoc) == spec_note_steps(note)
            + spec_song_body(Seq::<(char, u32)>::empty()));
        assert(spec_song_body(snoc) =~= spec_song_body(notes) + spec_note_steps(note));
    } else {
        assert(snoc.drop_first() =~= notes.drop_first().push(note));
        lemma_song_body_snoc(notes.drop_first(), note);
        assert(spec_song_body(snoc) == spec_note_steps(notes[0])
            + (spec_song_body(notes.drop_first()) + spec_note_steps(note)));
        assert(spec_song_body(snoc) =~= spec_song_body(notes) + spec_note_steps(note));
    }
}

/// The melody player: a fixed scale of note names with their frequencies
/// and a fixed tempo.
pub struct Tone {
    pub notes: [char; 8],
    pub frequencies: [u32; 8],
    pub tempo: u32,
}

impl Tone {
    /// The scale and tempo the player is built with.
    pub open spec fn wf(self) -> bool {
        &&& self.notes@ =~= seq!['c', 'd', 'e', 'f', 'g', 'a', 'b', 'C']
        &&& self.frequencies@ =~= seq![262u32, 293, 329, 349, 392, 440, 494, 523]
        &&& self.tempo == 100
    }

    /// A player over the eight-note scale at the fixed tempo.
    pub fn new() -> (t: Tone)
        ensures
            t.wf(),
    {
        let t = Tone {
            notes: ['c', 'd', 'e', 'f', 'g', 'a', 'b', 'C'],
            frequencies: [262, 293, 329, 349, 392, 440, 494, 523],
            tempo: 100,
        };
        t
    }

    /// The retuning step for one note: scan the scale for its name and
    /// hand back the frequency found there, if any.
    fn play_tone(&self, n: char) -> (r: Option<u32>)
        requires
            self.wf(),
        ensures
            r == spec_frequency(n),
    {
        let mut r: Option<u32> = None;
        let mut i: usize = 0;
        while i < 8
            invariant
                self.wf(),
                i <= 8,
                r == spec_scan(*self, n, i as int),
            decreases 8 - i,
        {
            if self.notes[i] == n {
                r = Some(self.frequencies[i]);
            }
            i = i + 1;
        }
        proof {
            reveal_with_fuel(spec_scan, 9);
        }
        r
    }

    /// Unfold a song into the channel instructions that play it: enable
    /// the channel, retune and hold each note in turn, then disable it.
    pub fn play_song(&self, notes: &[(char, u32)]) -> (steps: Vec<ToneStep>)
        requires
            self.wf(),
            forall|i: int| 0 <= i < notes@.len() ==> (#[trigger] notes@[i]).1 <= 42949672,
        ensures
            steps@ == seq![ToneStep::Enable] + spec_song_body(notes@) + seq![ToneStep::Disable],
    {
        let mut steps: Vec<ToneStep> = Vec::new();
        steps.push(ToneStep::Enable);
        let mut i: usize = 0;
        while i < notes.len()
            invariant
                self.wf(),
                i <= notes.len(),
                forall|j: int| 0 <= j < notes@.len() ==> (#[trigger] notes@[j]).1 <= 42949672,
                steps@ == seq![ToneStep::Enable] + spec_song_body(notes@.take(i as int)),
            decreases notes.len() - i,
        {
            let (note, beat) = notes[i];
            let tone_duration = beat * self.tempo;
            match self.play_tone(note) {
                Some(f) => {
                    steps.push(ToneStep::SetPeriod(f));
                }
                None => {}
            }
            steps.push(ToneStep::DelayMs(tone_duration));
            proof {
                assert(notes@.take(i + 1) =~= notes@.take(i as int).push(notes@[i as int]));
                lemma_song_body_snoc(notes@.take(i as int), notes@[i as int]);
                assert(steps@ =~= seq![ToneStep::Enable] + spec_song_body(notes@.take(i + 1)));
            }
            i = i + 1;
        }
        steps.push(ToneStep::Disable);
        proof {
            assert(notes@.take(notes@.len() as int) =~= notes@);
            assert(steps@ =~= seq![ToneStep::Enable] + spec_song_body(notes@)
                + seq![ToneStep::Disable]);
        }
        steps
    }
}

/// The last frequency a scan of the scale's first `i` entries finds for a
/// note name.
spec fn spec_scan(t: Tone, n: char, i: int) -> Option<u32>
    decreases i,
{
    if i <= 0 {
        None
    } else if t.notes@[i - 1] == n {
        Some(t.frequencies@[i - 1])
    } else {
        spec_scan(t, n, i - 1)
    }
}

} // verus!
