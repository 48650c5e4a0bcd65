use vstd::prelude::*;

use crate::hid::MOD_LSHIFT;
use crate::remap::remap;
use crate::remap::remap_spec;
use crate::tone::ARPEGGIO_GAP_MS;
use crate::tone::ARPEGGIO_NOTE_MS;
use crate::tone::MELODY_GAP_MS;
use crate::tone::NOTE_COUNT;
use crate::tone::Note;
use crate::tone::PWM_PRESCALER;
use crate::tone::SYS_CLOCK_HZ;
use crate::tone::TONE_MS;
use crate::tone::arpeggio_notes;
use crate::tone::arpeggio_notes_spec;
use crate::tone::descending_melody;
use crate::tone::descending_melody_spec;
use crate::tone::duty_for;
use crate::tone::note_freq;
use crate::tone::note_freq_spec;
use crate::tone::startup_melody;
use crate::tone::startup_melody_spec;
use crate::tone::tone_top;
use crate::tone::tone_top_spec;

verus! {

/// How long a chord is held before its release report, in milliseconds.
pub const CHORD_HOLD_MS: u32 = 30;

/// Pause after a chord's release report, in milliseconds.
pub const CHORD_GAP_MS: u32 = 10;

/// How long a typed character's key is held, in milliseconds.
pub const TYPE_HOLD_MS: u32 = 20;

/// Pause after a typed character's release, in milliseconds.
pub const TYPE_GAP_MS: u32 = 20;

/// One HID chord: a set of modifier bits and one keycode sent together.
#[derive(Clone, Copy, PartialEq, Eq, Structural, Debug)]
pub struct Chord {
    pub modifier: u8,
    pub keycode: u8,
}

/// One primitive the macro engine asks the hardware to carry out, in order:
/// push a keyboard report, busy-wait, start a square wave on the speaker at
/// a timer-top and duty, or silence the speaker.
#[derive(Clone, Copy, PartialEq, Eq, Structural, Debug)]
pub enum Step {
    Report { modifier: u8, keycode: u8 },
    Wait { ms: u32 },
    Tone { top: u16, duty: u16 },
    Silence,
}

/// The fixed snippet texts typed by macro keys.
#[derive(Clone, Copy, PartialEq, Eq, Structural, Debug)]
pub enum TextId {
    Today,
    Thanks,
    OnIt,
    Brb,
}

/// The fixed melodies played by macro keys.
#[derive(Clone, Copy, PartialEq, Eq, Structural, Debug)]
pub enum MelodyId {
    Startup,
    Descending,
}

/// The bytes of one fixed snippet text.
pub open spec fn text_of_spec(t: TextId) -> Seq<u8> {
    match t {
        TextId::Today => seq![0x21u8, 0x74, 0x64],  // !td
        TextId::Thanks => seq![0x54u8, 0x68, 0x61, 0x6e, 0x6b, 0x73, 0x21],  // Thanks!
        TextId::OnIt => seq![0x4fu8, 0x6e, 0x20, 0x69, 0x74, 0x2e],  // On it.
        TextId::Brb => seq![0x62u8, 0x72, 0x62],  // brb
    }
}

/// Executable snippet table.
pub fn text_of(t: TextId) -> (r: Vec<u8>)
    ensures
        r@ == text_of_spec(t),
{
    let mut v: Vec<u8> = Vec::new();
    match t {
        TextId::Today => {
            v.push(0x21);
            v.push(0x74);
            v.push(0x64);
        },
        TextId::Thanks => {
            v.push(0x54);
            v.push(0x68);
            v.push(0x61);
            v.push(0x6e);
            v.push(0x6b);
            v.push(0x73);
            v.push(0x21);
        },
        TextId::OnIt => {
            v.push(0x4f);
            v.push(0x6e);
            v.push(0x20);
            v.push(0x69);
            v.push(0x74);
            v.push(0x2e);
        },
        TextId::Brb => {
            v.push(0x62);
            v.push(0x72);
            v.push(0x62);
        },
    }
    proof {
        assert(v@ =~= text_of_spec(t));
    }
    v
}

/// The notes of one fixed melody.
pub open spec fn melody_of_spec(m: MelodyId) -> Seq<Note> {
    match m {
        MelodyId::Startup => startup_melody_spec(),
        MelodyId::Descending => descending_melody_spec(),
    }
}

/// Executable melody table.
pub fn melody_of(m: MelodyId) -> (r: Vec<Note>)
    ensures
        r@ == melody_of_spec(m),
{
    match m {
        MelodyId::Startup => startup_melody(),
        MelodyId::Descending => descending_melody(),
    }
}

/// Every melody note either rests or sounds at no less than 30 Hz, so its
/// timer top fits the PWM counter.
pub proof fn lemma_melody_freqs(m: MelodyId)
    ensures
        forall|i: int|
            0 <= i < melody_of_spec(m).len() ==> (melody_of_spec(m)[i].freq == 0
                || melody_of_spec(m)[i].freq >= 30),
{
}

/// At the fixed clock and prescaler, any frequency of at least 30 Hz gives
/// a timer top that fits the 16-bit PWM counter.
pub proof fn lemma_top_fits(freq: u32)
    requires
        freq >= 30,
    ensures
        0 <= tone_top_spec(SYS_CLOCK_HZ, PWM_PRESCALER, freq) <= u16::MAX,
{
    assert((SYS_CLOCK_HZ as int) / (PWM_PRESCALER as int) == 1953125);
    assert(1953125int / (freq as int) <= 65535) by (nonlinear_arith)
        requires
            freq >= 30,
    ;
    assert(1953125int / (freq as int) >= 0) by (nonlinear_arith)
        requires
            freq >= 30,
    ;
}

/// The steps that sound one frequency for a duration at the fixed clock:
/// start the square wave, hold it, silence it.
pub open spec fn tone_burst_spec(freq: u32, ms: u32) -> Seq<Step> {
    let top = tone_top_spec(SYS_CLOCK_HZ, PWM_PRESCALER, freq);
    seq![
        Step::Tone { top: top as u16, duty: (top / 2) as u16 },
        Step::Wait { ms: ms },
        Step::Silence,
    ]
}

/// Executable tone burst.
pub fn tone_burst(freq: u32, ms: u32) -> (r: Vec<Step>)
    requires
        freq >= 30,
    ensures
        r@ == tone_burst_spec(freq, ms),
{
    proof {
        lemma_top_fits(freq);
    }
    let top = tone_top(SYS_CLOCK_HZ, PWM_PRESCALER, freq);
    let duty = duty_for(top);
    let mut v: Vec<Step> = Vec::new();
    v.push(Step::Tone { top, duty });
    v.push(Step::Wait { ms });
    v.push(Step::Silence);
    proof {
        assert(v@ =~= tone_burst_spec(freq, ms));
    }
    v
}

/// The steps of one chord: press, hold, explicit release, gap.
pub open spec fn chord_steps_spec(c: Chord) -> Seq<Step> {
    seq![
        Step::Report { modifier: c.modifier, keycode: c.keycode },
        Step::Wait { ms: CHORD_HOLD_MS },
        Step::Report { modifier: 0, keycode: 0 },
        Step::Wait { ms: CHORD_GAP_MS },
    ]
}

/// The steps of a sequence of chords, back-to-back in order.
pub open spec fn chords_steps_spec(cs: Seq<Chord>) -> Seq<Step>
    decreases cs.len(),
{
    if cs.len() == 0 {
        Seq::empty()
    } else {
        chords_steps_spec(cs.drop_last()) + chord_steps_spec(cs.last())
    }
}

/// Executable chord sequence planner.
pub fn plan_chords(cs: &Vec<Chord>) -> (r: Vec<Step>)
    ensures
        r@ == chords_steps_spec(cs@),
{
    let mut out: Vec<Step> = Vec::new();
    let mut i: usize = 0;
    while i < cs.len()
        invariant
            i <= cs@.len(),
            out@ == chords_steps_spec(cs@.take(i as int)),
        decreases cs@.len() - i,
    {
        let c = cs[i];
        proof {
            assert(cs@.take(i + 1 as int).drop_last() =~= cs@.take(i as int));
            assert(cs@.take(i + 1 as int).last() == cs@[i as int]);
        }
        out.push(Step::Report { modifier: c.modifier, keycode: c.keycode });
        out.push(Step::Wait { ms: CHORD_HOLD_MS });
        out.push(Step::Report { modifier: 0, keycode: 0 });
        out.push(Step::Wait { ms: CHORD_GAP_MS });
        proof {
            assert(out@ =~= chords_steps_spec(cs@.take(i + 1 as int)));
        }
        i = i + 1;
    }
    proof {
        assert(cs@.take(cs@.len() as int) =~= cs@);
    }
    out
}

/// The steps that type one character: the remapped key pressed with or
/// without shift, held, released, with a gap before the next; a character
/// outside the supported set is dropped, not substituted.
pub open spec fn char_steps_spec(b: u8) -> Seq<Step> {
    match remap_spec(b) {
        Some(kp) => seq![
            Step::Report {
                modifier: if kp.shift {
                    MOD_LSHIFT
                } else {
                    0
                },
                keycode: kp.key,
            },
            Step::Wait { ms: TYPE_HOLD_MS },
            Step::Report { modifier: 0, keycode: 0 },
            Step::Wait { ms: TYPE_GAP_MS },
        ],
        None => Seq::empty(),
    }
}

/// The steps that type a whole text, character by character in order.
pub open spec fn typed_steps_spec(s: Seq<u8>) -> Seq<Step>
    decreases s.len(),
{
    if s.len() == 0 {
        Seq::empty()
    } else {
        typed_steps_spec(s.drop_last()) + char_steps_spec(s.last())
    }
}

/// Executable typed-string planner.
pub fn plan_typed(text: &Vec<u8>) -> (r: Vec<Step>)
    ensures
        r@ == typed_steps_spec(text@),
{
    let mut out: Vec<Step> = Vec::new();
    let mut i: usize = 0;
    while i < text.len()
        invariant
            i <= text@.len(),
            out@ == typed_steps_spec(text@.take(i as int)),
        decreases text@.len() - i,
    {
        let b = text[i];
        proof {
            assert(text@.take(i + 1 as int).drop_last() =~= text@.take(i as int));
            assert(text@.take(i + 1 as int).last() == text@[i as int]);
        }
        match remap(b) {
            Some(kp) => {
                let modifier = if kp.shift {
                    MOD_LSHIFT
                } else {
                    0
                };
                out.push(Step::Report { modifier, keycode: kp.key });
                out.push(Step::Wait { ms: TYPE_HOLD_MS });
                out.push(Step::Report { modifier: 0, keycode: 0 });
                out.push(Step::Wait { ms: TYPE_GAP_MS });
            },
            None => {},
        }
        proof {
            assert(out@ =~= typed_steps_spec(text@.take(i + 1 as int)));
        }
        i = i + 1;
    }
    proof {
        assert(text@.take(text@.len() as int) =~= text@);
    }
    out
}

/// The steps of one melody entry: a rest waits in silence, a note sounds
/// for its duration; a fixed gap follows either.
pub open spec fn melody_note_steps_spec(n: Note) -> Seq<Step> {
    if n.freq == 0 {
        seq![Step::Wait { ms: n.ms }, Step::Wait { ms: MELODY_GAP_MS }]
    } else {
        tone_burst_spec(n.freq, n.ms) + seq![Step::Wait { ms: MELODY_GAP_MS }]
    }
}

/// The steps of a whole melody, entry by entry in order.
pub open spec fn melody_steps_spec(notes: Seq<Note>) -> Seq<Step>
    decreases notes.len(),
{
    if notes.len() == 0 {
        Seq::empty()
    } else {
        melody_steps_spec(notes.drop_last()) + melody_note_steps_spec(notes.last())
    }
}

/// Executable melody planner.
pub fn plan_melody(notes: &Vec<Note>) -> (r: Vec<Step>)
    requires
        forall|i: int| 0 <= i < notes@.len() ==> (notes@[i].freq == 0 || notes@[i].freq >= 30),
    ensures
        r@ == melody_steps_spec(notes@),
{
    let mut out: Vec<Step> = Vec::new();
    let mut i: usize = 0;
    while i < notes.len()
        invariant
            i <= notes@.len(),
            forall|j: int| 0 <= j < notes@.len() ==> (notes@[j].freq == 0 || notes@[j].freq >= 30),
            out@ == melody_steps_spec(notes@.take(i as int)),
        decreases notes@.len() - i,
    {
        let n = notes[i];
        proof {
            assert(notes@.take(i + 1 as int).drop_last() =~= notes@.take(i as int));
            assert(notes@.take(i + 1 as int).last() == notes@[i as int]);
        }
        if n.freq == 0 {
            out.push(Step::Wait { ms: n.ms });
        } else {
            let mut burst = tone_burst(n.freq, n.ms);
            out.append(&mut burst);
        }
        out.push(Step::Wait { ms: MELODY_GAP_MS });
        proof {
            assert(out@ =~= melody_steps_spec(notes@.take(i + 1 as int)));
        }
        i = i + 1;
    }
    proof {
        assert(notes@.take(notes@.len() as int) =~= notes@);
    }
    out
}

/// The steps of one arpeggio note: a short burst and a short gap.
pub open spec fn arpeggio_note_steps_spec(idx: int) -> Seq<Step> {
    tone_burst_spec(note_freq_spec(idx), ARPEGGIO_NOTE_MS) + seq![
        Step::Wait { ms: ARPEGGIO_GAP_MS },
    ]
}

/// The steps of a list of arpeggio note indices, in order.
pub open spec fn arpeggio_fold_spec(idxs: Seq<int>) -> Seq<Step>
    decreases idxs.len(),
{
    if idxs.len() == 0 {
        Seq::empty()
    } else {
        arpeggio_fold_spec(idxs.drop_last()) + arpeggio_note_steps_spec(idxs.last())
    }
}

/// The steps of one whole arpeggio: its triad up to the octave and back
/// down, the duplicated peak left out of the descent.
pub open spec fn arpeggio_steps_spec(root: int, minor: bool) -> Seq<Step> {
    arpeggio_fold_spec(arpeggio_notes_spec(root, minor))
}

/// Every note table entry sounds at no less than 30 Hz.
pub proof fn lemma_note_freq_lower_bound(i: int)
    requires
        0 <= i < NOTE_COUNT,
    ensures
        note_freq_spec(i) >= 30,
{
}

/// Executable arpeggio planner.
pub fn plan_arpeggio(root: usize, minor: bool) -> (r: Vec<Step>)
    requires
        root < 12,
    ensures
        r@ == arpeggio_steps_spec(root as int, minor),
{
    let idxs = arpeggio_notes(root, minor);
    let ghost spec_idxs = arpeggio_notes_spec(root as int, minor);
    let mut out: Vec<Step> = Vec::new();
    let mut i: usize = 0;
    while i < idxs.len()
        invariant
            idxs@.len() == spec_idxs.len(),
            forall|j: int| 0 <= j < idxs@.len() ==> idxs@[j] == spec_idxs[j],
            forall|j: int| 0 <= j < idxs@.len() ==> idxs@[j] < NOTE_COUNT,
            i <= idxs@.len(),
            out@ == arpeggio_fold_spec(spec_idxs.take(i as int)),
        decreases idxs@.len() - i,
    {
        let idx = idxs[i];
        proof {
            assert(spec_idxs.take(i + 1 as int).drop_last() =~= spec_idxs.take(i as int));
            assert(spec_idxs.take(i + 1 as int).last() == spec_idxs[i as int]);
            lemma_note_freq_lower_bound(idx as int);
        }
        let freq = note_freq(idx);
        let mut burst = tone_burst(freq, ARPEGGIO_NOTE_MS);
        out.append(&mut burst);
        out.push(Step::Wait { ms: ARPEGGIO_GAP_MS });
        proof {
            assert(out@ =~= arpeggio_fold_spec(spec_idxs.take(i + 1 as int)));
        }
        i = i + 1;
    }
    proof {
        assert(spec_idxs.take(spec_idxs.len() as int) =~= spec_idxs);
    }
    out
}

/// What one key of one layer does: nothing; a chord held for a fixed time;
/// a chord held until the key's release edge; the same chord twice
/// back-to-back; a typed snippet; a melody; a single tone of the note
/// table; or an arpeggio.
#[derive(Clone, Copy, PartialEq, Eq, Structural, Debug)]
pub enum Action {
    Nop,
    Chord(Chord),
    HoldChord(Chord),
    DoubleChord(Chord),
    Typed(TextId),
    Melody(MelodyId),
    Tone { note: u8 },
    Arpeggio { root: u8, minor: bool },
}

/// An action the tables may hold: tone and arpeggio indices stay on the
/// eleven non-reserved keys, inside the note table.
pub open spec fn action_wf(a: Action) -> bool {
    match a {
        Action::Tone { note } => note < 12,
        Action::Arpeggio { root, minor } => root < 12,
        _ => true,
    }
}

/// The fixed action table: which action each key of each layer resolves
/// to. The reserved overlay-toggle key maps to nothing on every layer: it
/// is intercepted before layer dispatch.
///
/// The primary layer carries the canned shortcuts and melodies: the
/// startup melody, a press-and-hold record chord, the mute chord, the
/// escape-twice sequence, the launcher chord, the descending melody, and
/// the typed daily-note snippet. The secondary layer plays one note per
/// key; the tertiary layer plays arpeggios, major on even keys and minor
/// on odd ones. The overlay layer types snippets.
pub open spec fn action_spec(layer: crate::layers::Layer, key: int) -> Action {
    match layer {
        crate::layers::Layer::Primary => {
            if key == 0 {
                Action::Melody(MelodyId::Startup)
            } else if key == 1 {
                Action::HoldChord(Chord { modifier: 0x0a, keycode: 0x16 })
            } else if key == 2 {
                Action::Chord(Chord { modifier: 0x0a, keycode: 0x04 })
            } else if key == 3 {
                Action::DoubleChord(Chord { modifier: 0, keycode: 0x29 })
            } else if key == 4 {
                Action::Chord(Chord { modifier: 0x01, keycode: 0x2c })
            } else if key == 5 {
                Action::Melody(MelodyId::Descending)
            } else if key == 10 {
                Action::Typed(TextId::Today)
            } else {
                Action::Nop
            }
        },
        crate::layers::Layer::Secondary => {
            if 0 <= key < 11 {
                Action::Tone { note: key as u8 }
            } else {
                Action::Nop
            }
        },
        crate::layers::Layer::Tertiary => {
            if 0 <= key < 11 {
                Action::Arpeggio { root: key as u8, minor: key % 2 == 1 }
            } else {
                Action::Nop
            }
        },
        crate::layers::Layer::Overlay => {
            if key == 0 {
                Action::Typed(TextId::Thanks)
            } else if key == 1 {
                Action::Typed(TextId::OnIt)
            } else if key == 2 {
                Action::Typed(TextId::Brb)
            } else {
                Action::Nop
            }
        },
    }
}

/// Executable action table lookup.
pub fn action_for(layer: crate::layers::Layer, key: usize) -> (r: Action)
    requires
        key < 12,
    ensures
        r == action_spec(layer, key as int),
        action_wf(r),
{
    match layer {
        crate::layers::Layer::Primary => {
            if key == 0 {
                Action::Melody(MelodyId::Startup)
            } else if key == 1 {
                Action::HoldChord(Chord { modifier: 0x0a, keycode: 0x16 })
            } else if key == 2 {
                Action::Chord(Chord { modifier: 0x0a, keycode: 0x04 })
            } else if key == 3 {
                Action::DoubleChord(Chord { modifier: 0, keycode: 0x29 })
            } else if key == 4 {
                Action::Chord(Chord { modifier: 0x01, keycode: 0x2c })
            } else if key == 5 {
                Action::Melody(MelodyId::Descending)
            } else if key == 10 {
                Action::Typed(TextId::Today)
            } else {
                Action::Nop
            }
        },
        crate::layers::Layer::Secondary => {
            if key < 11 {
                Action::Tone { note: key as u8 }
            } else {
                Action::Nop
            }
        },
        crate::layers::Layer::Tertiary => {
            if key < 11 {
                Action::Arpeggio { root: key as u8, minor: key % 2 == 1 }
            } else {
                Action::Nop
            }
        },
        crate::layers::Layer::Overlay => {
            if key == 0 {
                Action::Typed(TextId::Thanks)
            } else if key == 1 {
                Action::Typed(TextId::OnIt)
            } else if key == 2 {
                Action::Typed(TextId::Brb)
            } else {
                Action::Nop
            }
        },
    }
}

/// The steps one action resolves to when entered on a press edge. A
/// press-and-hold chord contributes only its press report here: its
/// release report is owed to the key's release edge, not to a timer.
pub open spec fn action_steps_spec(a: Action) -> Seq<Step> {
    match a {
        Action::Nop => Seq::empty(),
        Action::Chord(c) => chord_steps_spec(c),
        Action::HoldChord(c) => seq![Step::Report { modifier: c.modifier, keycode: c.keycode }],
        Action::DoubleChord(c) => chords_steps_spec(seq![c, c]),
        Action::Typed(t) => typed_steps_spec(text_of_spec(t)),
        Action::Melody(m) => melody_steps_spec(melody_of_spec(m)),
        Action::Tone { note } => tone_burst_spec(note_freq_spec(note as int), TONE_MS),
        Action::Arpeggio { root, minor } => arpeggio_steps_spec(root as int, minor),
    }
}

/// Executable planner: the steps an action resolves to on its press edge.
pub fn plan_action(a: Action) -> (r: Vec<Step>)
    requires
        action_wf(a),
    ensures
        r@ == action_steps_spec(a),
{
    match a {
        Action::Nop => Vec::new(),
        Action::Chord(c) => {
            let mut cs: Vec<Chord> = Vec::new();
            cs.push(c);
            let r = plan_chords(&cs);
            proof {
                assert(cs@.drop_last() =~= Seq::<Chord>::empty());
                assert(chords_steps_spec(cs@.drop_last()) == Seq::<Step>::empty());
                assert(chords_steps_spec(cs@) =~= chord_steps_spec(c));
            }
            r
        },
        Action::HoldChord(c) => {
            let mut v: Vec<Step> = Vec::new();
            v.push(Step::Report { modifier: c.modifier, keycode: c.keycode });
            proof {
                assert(v@ =~= action_steps_spec(a));
            }
            v
        },
        Action::DoubleChord(c) => {
            let mut cs: Vec<Chord> = Vec::new();
            cs.push(c);
            cs.push(c);
            let r = plan_chords(&cs);
            proof {
                assert(cs@ =~= seq![c, c]);
            }
            r
        },
        Action::Typed(t) => {
            let text = text_of(t);
            plan_typed(&text)
        },
        Action::Melody(m) => {
            let notes = melody_of(m);
            proof {
                lemma_melody_freqs(m);
            }
            plan_melody(&notes)
        },
        Action::Tone { note } => {
            proof {
                lemma_note_freq_lower_bound(note as int);
            }
            let freq = note_freq(note as usize);
            tone_burst(freq, TONE_MS)
        },
        Action::Arpeggio { root, minor } => plan_arpeggio(root as usize, minor),
    }
}

} // verus!
